use shard_ledger::args;
use shard_ledger::errors::Error;
use shard_ledger::ledger::Simulation;

#[test]
fn can_create_and_get_execution_environments() {
    let mut eth = Simulation::new();

    // Can create a new EE
    let example_wasm_code = "some wasm code here";
    let ee_args = args::ExecutionEnvironment {
        base64_encoded_wasm_code: base64::encode(example_wasm_code),
    };
    let create_ee_args = args::CreateExecutionEnvironment {
        execution_environment: ee_args,
    };
    let result = eth.create_execution_environment(create_ee_args).unwrap();
    assert_eq!(
        result, 0,
        "The first execution environment created should have an index of 0"
    );

    // Can retrieve the newly-created EE
    let get_ee_args = args::GetExecutionEnvironment {
        execution_environment_index: result,
    };
    let ee_args_retrieved = eth.get_execution_environment(get_ee_args).unwrap();
    assert_eq!(
        ee_args_retrieved.base64_encoded_wasm_code,
        base64::encode(example_wasm_code),
        "EE wasm code retrieved should match the EE wasm code that was created"
    );

    // Can create and retrieve a second EE
    let example_wasm_code = "some other wasm code here";
    let ee_args = args::ExecutionEnvironment {
        base64_encoded_wasm_code: base64::encode(example_wasm_code),
    };
    let create_ee_args = args::CreateExecutionEnvironment {
        execution_environment: ee_args,
    };
    let result = eth.create_execution_environment(create_ee_args).unwrap();
    assert_eq!(
        result, 1,
        "The second execution environment created should have an index of 1"
    );
    let get_ee_args = args::GetExecutionEnvironment {
        execution_environment_index: result,
    };
    let ee_args_retrieved = eth.get_execution_environment(get_ee_args).unwrap();
    assert_eq!(
        ee_args_retrieved.base64_encoded_wasm_code,
        base64::encode(example_wasm_code),
        "EE wasm code retrieved should match the EE wasm code that was created"
    );
}

#[test]
fn getting_ee_at_incorrect_index_should_return_err() {
    let mut eth = Simulation::new();
    let get_ee_args = args::GetExecutionEnvironment {
        execution_environment_index: 155512,
    };
    let ee_args_retrieved = eth.get_execution_environment(get_ee_args);
    assert!(ee_args_retrieved.is_err());
}

#[test]
fn can_create_shard_chains() {
    let mut eth = Simulation::new();
    let sc_args = args::CreateShardChain {};
    let result = eth.create_shard_chain(sc_args);
    assert_eq!(
        result, 0,
        "The first shard chain created should have an index of 0"
    );

    let sc_args = args::CreateShardChain {};
    let result = eth.create_shard_chain(sc_args);
    assert_eq!(
        result, 1,
        "The second shard chain created should have an index of 1"
    );
}

#[test]
fn can_get_simulation_state() {
    let mut eth = Simulation::new();

    let get_ss_args = args::GetSimulationState {};
    let general_state = eth.simulation_state(get_ss_args);
    assert_eq!(0, general_state.num_shard_chains);
    assert_eq!(0, general_state.num_execution_environments);

    let sc_args = args::CreateShardChain {};
    eth.create_shard_chain(sc_args);

    let get_ss_args = args::GetSimulationState {};
    let general_state = eth.simulation_state(get_ss_args);
    assert_eq!(1, general_state.num_shard_chains);
    assert_eq!(0, general_state.num_execution_environments);

    let ee_args = args::ExecutionEnvironment {
        base64_encoded_wasm_code: base64::encode("wasm msaw"),
    };
    let create_ee_args = args::CreateExecutionEnvironment {
        execution_environment: ee_args,
    };
    let _ = eth.create_execution_environment(create_ee_args);
    let get_ss_args = args::GetSimulationState {};
    let general_state = eth.simulation_state(get_ss_args);
    assert_eq!(1, general_state.num_shard_chains);
    assert_eq!(1, general_state.num_execution_environments);
}

fn create_example_shard_block_args(ee_index: u32) -> args::ShardBlock {
    // Create transaction arguments
    let transaction_args1 = args::ShardTransaction {
        base64_encoded_data: base64::encode("some data"),
        ee_index,
    };
    let transaction_args2 = args::ShardTransaction {
        base64_encoded_data: base64::encode("some other data"),
        ee_index,
    };

    // Create shard block arguments
    let sb_args = args::ShardBlock {
        transactions: vec![transaction_args1, transaction_args2],
    };

    sb_args
}

#[test]
fn can_create_and_get_shard_blocks() {
    let mut eth = Simulation::new();

    // Add EE
    let example_wasm_code = "some wasm code here";
    let ee_args = args::ExecutionEnvironment {
        base64_encoded_wasm_code: base64::encode(example_wasm_code),
    };
    let create_ee_args = args::CreateExecutionEnvironment {
        execution_environment: ee_args,
    };
    let ee_index = eth.create_execution_environment(create_ee_args).unwrap();

    // Add Shard Chain
    let sc_args = args::CreateShardChain {};
    let sc_index = eth.create_shard_chain(sc_args);

    // Create shard block args
    let sb_args1 = create_example_shard_block_args(ee_index);
    let sb_args2 = create_example_shard_block_args(ee_index);

    // Add shard blocks and assert that indices look correct
    let create_shard_block_args1 = args::CreateShardBlock {
        shard_chain_index: sc_index,
        shard_block: sb_args1,
    };
    let create_shard_block_args2 = args::CreateShardBlock {
        shard_chain_index: sc_index,
        shard_block: sb_args2,
    };
    let block_index1 = eth.create_shard_block(create_shard_block_args1).unwrap();
    let block_index2 = eth.create_shard_block(create_shard_block_args2).unwrap();
    assert_eq!(
        block_index1, 0,
        "first shard block added should have index of 0"
    );
    assert_eq!(
        block_index2, 1,
        "second shard block added should have index of 1"
    );

    // Get back shard blocks and make sure they look the same as originally
    let get_shard_block_args1 = args::GetShardBlock {
        shard_chain_index: sc_index,
        shard_block_index: block_index1,
    };
    let sb_args_returned = eth.get_shard_block(get_shard_block_args1).unwrap();
    assert_eq!(
        sb_args_returned,
        create_example_shard_block_args(ee_index),
        "value saved should match initial args passed in"
    );

    let get_shard_block_args2 = args::GetShardBlock {
        shard_chain_index: sc_index,
        shard_block_index: block_index2,
    };
    let sb_args_returned = eth.get_shard_block(get_shard_block_args2).unwrap();
    assert_eq!(
        sb_args_returned,
        create_example_shard_block_args(ee_index),
        "value saved should match initial args passed in"
    );
}

#[test]
fn round_trip_register_then_fetch_returns_original_bytes() {
    let original: Vec<u8> = vec![0, 1, 2, 3, 254, 255, 127, 128, 42, 0, 9];
    let mut eth = Simulation::new();
    let index = eth
        .create_execution_environment(args::CreateExecutionEnvironment {
            execution_environment: args::ExecutionEnvironment {
                base64_encoded_wasm_code: base64::encode(&original),
            },
        })
        .unwrap();
    let fetched = eth
        .get_execution_environment(args::GetExecutionEnvironment {
            execution_environment_index: index,
        })
        .unwrap();
    let decoded = base64::decode(&fetched.base64_encoded_wasm_code).unwrap();
    assert_eq!(decoded, original);
}

#[test]
fn fetch_reencodes_canonically_rather_than_echoing_input() {
    // "aGk" is well-formed but unpadded; the stored bytes are re-encoded on
    // the way out, so the fetched text is the padded canonical form.
    let mut eth = Simulation::new();
    let index = eth
        .create_execution_environment(args::CreateExecutionEnvironment {
            execution_environment: args::ExecutionEnvironment {
                base64_encoded_wasm_code: "aGk".to_owned(),
            },
        })
        .unwrap();
    let fetched = eth
        .get_execution_environment(args::GetExecutionEnvironment {
            execution_environment_index: index,
        })
        .unwrap();
    assert_eq!(fetched.base64_encoded_wasm_code, "aGk=");
}

#[test]
fn registering_malformed_text_fails_without_state_change() {
    let mut eth = Simulation::new();
    let result = eth.create_execution_environment(args::CreateExecutionEnvironment {
        execution_environment: args::ExecutionEnvironment {
            base64_encoded_wasm_code: "!!! not base64 !!!".to_owned(),
        },
    });
    assert!(matches!(result, Err(Error::Decode { .. })));
    let state = eth.simulation_state(args::GetSimulationState {});
    assert_eq!(state.num_execution_environments, 0);
}

#[test]
fn get_succeeds_below_count_and_fails_at_count() {
    let mut eth = Simulation::new();
    for payload in ["one", "two", "three"] {
        eth.create_execution_environment(args::CreateExecutionEnvironment {
            execution_environment: args::ExecutionEnvironment {
                base64_encoded_wasm_code: base64::encode(payload),
            },
        })
        .unwrap();
    }
    let count = eth
        .simulation_state(args::GetSimulationState {})
        .num_execution_environments;
    assert_eq!(count, 3);
    for index in 0..count {
        assert!(eth
            .get_execution_environment(args::GetExecutionEnvironment {
                execution_environment_index: index,
            })
            .is_ok());
    }
    for index in [count, count + 1, u32::MAX] {
        assert!(eth
            .get_execution_environment(args::GetExecutionEnvironment {
                execution_environment_index: index,
            })
            .is_err());
    }
}

#[test]
fn appending_to_missing_shard_leaves_ledger_unchanged() {
    let mut eth = Simulation::new();
    let chain = eth.create_shard_chain(args::CreateShardChain {});
    let block = args::ShardBlock {
        transactions: vec![args::ShardTransaction {
            base64_encoded_data: base64::encode("payload"),
            ee_index: 0,
        }],
    };
    eth.create_shard_block(args::CreateShardBlock {
        shard_chain_index: chain,
        shard_block: block,
    })
    .unwrap();

    let stray = args::ShardBlock {
        transactions: vec![args::ShardTransaction {
            base64_encoded_data: base64::encode("stray"),
            ee_index: 0,
        }],
    };
    let result = eth.create_shard_block(args::CreateShardBlock {
        shard_chain_index: 7,
        shard_block: stray,
    });
    match result {
        Err(Error::OutOfBounds { message }) => {
            assert_eq!(message, "No shard chain exists at index: 7");
        }
        other => panic!("expected OutOfBounds, got {:?}", other),
    }

    // The shard-chain list and all existing blocks are unchanged.
    let state = eth.simulation_state(args::GetSimulationState {});
    assert_eq!(state.num_shard_chains, 1);
    let kept = eth
        .get_shard_block(args::GetShardBlock {
            shard_chain_index: chain,
            shard_block_index: 0,
        })
        .unwrap();
    assert_eq!(
        base64::decode(&kept.transactions[0].base64_encoded_data).unwrap(),
        b"payload"
    );
    assert!(eth
        .get_shard_block(args::GetShardBlock {
            shard_chain_index: chain,
            shard_block_index: 1,
        })
        .is_err());
}

#[test]
fn one_malformed_transaction_rejects_the_whole_block() {
    let mut eth = Simulation::new();
    let chain = eth.create_shard_chain(args::CreateShardChain {});
    let block = args::ShardBlock {
        transactions: vec![
            args::ShardTransaction {
                base64_encoded_data: base64::encode("fine"),
                ee_index: 0,
            },
            args::ShardTransaction {
                base64_encoded_data: "*** malformed ***".to_owned(),
                ee_index: 0,
            },
            args::ShardTransaction {
                base64_encoded_data: base64::encode("also fine"),
                ee_index: 0,
            },
        ],
    };
    let result = eth.create_shard_block(args::CreateShardBlock {
        shard_chain_index: chain,
        shard_block: block,
    });
    assert!(matches!(result, Err(Error::Decode { .. })));

    // No partial append: the chain still holds no block at all.
    assert!(eth
        .get_shard_block(args::GetShardBlock {
            shard_chain_index: chain,
            shard_block_index: 0,
        })
        .is_err());
    let state = eth.simulation_state(args::GetSimulationState {});
    assert_eq!(state.num_shard_chains, 1);
}

#[test]
fn hello_then_two_transaction_block_scenario() {
    let mut eth = Simulation::new();
    let ee_index = eth
        .create_execution_environment(args::CreateExecutionEnvironment {
            execution_environment: args::ExecutionEnvironment {
                base64_encoded_wasm_code: base64::encode("hello"),
            },
        })
        .unwrap();
    assert_eq!(ee_index, 0);

    let chain_index = eth.create_shard_chain(args::CreateShardChain {});
    assert_eq!(chain_index, 0);

    let block_index = eth
        .create_shard_block(args::CreateShardBlock {
            shard_chain_index: chain_index,
            shard_block: args::ShardBlock {
                transactions: vec![
                    args::ShardTransaction {
                        base64_encoded_data: base64::encode("a"),
                        ee_index,
                    },
                    args::ShardTransaction {
                        base64_encoded_data: base64::encode("b"),
                        ee_index,
                    },
                ],
            },
        })
        .unwrap();
    assert_eq!(block_index, 0);

    let fetched = eth
        .get_shard_block(args::GetShardBlock {
            shard_chain_index: 0,
            shard_block_index: 0,
        })
        .unwrap();
    assert_eq!(fetched.transactions.len(), 2);
    assert_eq!(
        base64::decode(&fetched.transactions[0].base64_encoded_data).unwrap(),
        b"a"
    );
    assert_eq!(
        base64::decode(&fetched.transactions[1].base64_encoded_data).unwrap(),
        b"b"
    );
    assert_eq!(fetched.transactions[0].ee_index, 0);
    assert_eq!(fetched.transactions[1].ee_index, 0);
}

#[test]
fn out_of_bounds_messages_identify_the_offending_index() {
    let mut eth = Simulation::new();
    match eth.get_execution_environment(args::GetExecutionEnvironment {
        execution_environment_index: 155512,
    }) {
        Err(Error::OutOfBounds { message }) => {
            assert_eq!(message, "No execution environment exists at index: 155512");
        }
        other => panic!("expected OutOfBounds, got {:?}", other),
    }
    match eth.get_shard_block(args::GetShardBlock {
        shard_chain_index: 3,
        shard_block_index: 0,
    }) {
        Err(Error::OutOfBounds { message }) => {
            assert_eq!(message, "no shard chain exists at index '3'");
        }
        other => panic!("expected OutOfBounds, got {:?}", other),
    }
    let chain = eth.create_shard_chain(args::CreateShardChain {});
    match eth.get_shard_block(args::GetShardBlock {
        shard_chain_index: chain,
        shard_block_index: 2,
    }) {
        Err(Error::OutOfBounds { message }) => {
            assert_eq!(
                message,
                "the shard chain at index '0' does not contain a block at index '2'"
            );
        }
        other => panic!("expected OutOfBounds, got {:?}", other),
    }
}
