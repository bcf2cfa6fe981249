//! Boundary records: the plain argument and result shapes that callers hand
//! to the ledger and receive back. Binary payloads appear here only in their
//! text-encoded form.

use vstd::prelude::*;

verus! {

/// Arguments of a state summary request.
#[derive(Debug, Default)]
pub struct GetSimulationState {}

/// Arguments of an execution-environment registration.
#[derive(Debug, Default)]
pub struct CreateExecutionEnvironment {
    pub execution_environment: ExecutionEnvironment,
}

/// Arguments of an execution-environment lookup.
#[derive(Debug, Default)]
pub struct GetExecutionEnvironment {
    pub execution_environment_index: u32,
}

/// Arguments of a shard-chain creation.
#[derive(Debug, Default)]
pub struct CreateShardChain {}

/// Arguments of a block append: the target shard chain and the whole block.
#[derive(Debug, Default)]
pub struct CreateShardBlock {
    pub shard_chain_index: u32,
    pub shard_block: ShardBlock,
}

/// Arguments of a block lookup.
#[derive(Debug, Default)]
pub struct GetShardBlock {
    pub shard_chain_index: u32,
    pub shard_block_index: u32,
}

/// An execution environment as seen at the boundary: its code as base64 text.
#[derive(Debug, Default)]
pub struct ExecutionEnvironment {
    pub base64_encoded_wasm_code: String,
}

/// A consistent point-in-time summary of the ledger.
#[derive(Debug, Default)]
pub struct SimulationState {
    pub num_execution_environments: u32,
    pub num_shard_chains: u32,
}

/// A block as seen at the boundary: its transactions in order.
#[derive(Debug, Default, Eq, PartialEq)]
pub struct ShardBlock {
    pub transactions: Vec<ShardTransaction>,
}

/// A transaction as seen at the boundary: its data as base64 text and the
/// index of the execution environment it references.
#[derive(Debug, Default, Eq, PartialEq)]
pub struct ShardTransaction {
    pub base64_encoded_data: String,
    pub ee_index: u32,
}

/// The mathematical value of a boundary transaction.
#[verifier::ext_equal]
pub struct TransactionText {
    pub encoded_data: Seq<char>,
    pub ee_index: u32,
}

impl View for ShardTransaction {
    type V = TransactionText;

    open spec fn view(&self) -> TransactionText {
        TransactionText { encoded_data: self.base64_encoded_data@, ee_index: self.ee_index }
    }
}

impl View for ShardBlock {
    type V = Seq<TransactionText>;

    open spec fn view(&self) -> Seq<TransactionText> {
        self.transactions@.map_values(|t: ShardTransaction| t@)
    }
}

} // verus!
