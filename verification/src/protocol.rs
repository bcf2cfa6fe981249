//! The actor protocol's decision core. The actor loop itself lives outside
//! the library (it owns a queue and suspends); what it decides is here:
//! which ledger operation a request maps to, what response it yields, and
//! that a reply that never arrives means the actor terminated.

use vstd::prelude::*;

use crate::args;
use crate::errors::Error;
use crate::ledger::create_execution_environment_post;
use crate::ledger::create_shard_block_post;
use crate::ledger::create_shard_chain_post;
use crate::ledger::get_execution_environment_post;
use crate::ledger::get_shard_block_post;
use crate::ledger::simulation_state_post;
use crate::ledger::Simulation;

verus! {

/// One tagged request: a ledger operation and its arguments, as carried to
/// the actor through its queue.
#[derive(Debug)]
pub enum Request {
    CreateExecutionEnvironment(args::CreateExecutionEnvironment),
    CreateShardBlock(args::CreateShardBlock),
    CreateShardChain(args::CreateShardChain),
    GetExecutionEnvironment(args::GetExecutionEnvironment),
    GetShardBlock(args::GetShardBlock),
    GetSimulationState(args::GetSimulationState),
}

/// The reply the actor routes back for one request, tagged like the request
/// that produced it.
#[derive(Debug)]
pub enum Response {
    ExecutionEnvironmentCreated(Result<u32, Error>),
    ShardBlockCreated(Result<u32, Error>),
    ShardChainCreated(u32),
    ExecutionEnvironment(Result<args::ExecutionEnvironment, Error>),
    ShardBlock(Result<args::ShardBlock, Error>),
    SimulationState(args::SimulationState),
}

/// Whether the ledger has index space left for the operation a request asks
/// for. The loop driving `dispatch` must check this before each step.
pub open spec fn dispatch_permitted(sim: Simulation, req: Request) -> bool {
    match req {
        Request::CreateExecutionEnvironment(_) => sim.environments().len() < u32::MAX as nat,
        Request::CreateShardChain(_) => sim.shards().len() < u32::MAX as nat,
        Request::CreateShardBlock(a) => (a.shard_chain_index as nat) < sim.shards().len()
            ==> sim.shards()[a.shard_chain_index as int].len() < u32::MAX as nat,
        _ => true,
    }
}

/// One step of the actor loop: applies a request to the ledger it owns and
/// produces the reply to route back. Each request kind maps to its ledger
/// operation and nothing else; read operations leave the ledger unchanged.
pub fn dispatch(sim: &mut Simulation, req: Request) -> (r: Response)
    requires
        old(sim).inv(),
        dispatch_permitted(*old(sim), req),
    ensures
        final(sim).inv(),
        match req {
            Request::CreateExecutionEnvironment(a) => r matches
                Response::ExecutionEnvironmentCreated(res)
                && create_execution_environment_post(*old(sim), *final(sim), a, res),
            Request::CreateShardBlock(a) => r matches Response::ShardBlockCreated(res)
                && create_shard_block_post(*old(sim), *final(sim), a, res),
            Request::CreateShardChain(_) => r matches Response::ShardChainCreated(index)
                && create_shard_chain_post(*old(sim), *final(sim), index),
            Request::GetExecutionEnvironment(a) => *final(sim) == *old(sim) && (r matches
                Response::ExecutionEnvironment(res)
                && get_execution_environment_post(*old(sim), a, res)),
            Request::GetShardBlock(a) => *final(sim) == *old(sim) && (r matches Response::ShardBlock(
                res,
            ) && get_shard_block_post(*old(sim), a, res)),
            Request::GetSimulationState(_) => *final(sim) == *old(sim) && (r matches
                Response::SimulationState(state)
                && simulation_state_post(*old(sim), state)),
        },
{
    match req {
        Request::CreateExecutionEnvironment(a) => Response::ExecutionEnvironmentCreated(
            sim.create_execution_environment(a),
        ),
        Request::CreateShardBlock(a) => Response::ShardBlockCreated(sim.create_shard_block(a)),
        Request::CreateShardChain(a) => Response::ShardChainCreated(sim.create_shard_chain(a)),
        Request::GetExecutionEnvironment(a) => Response::ExecutionEnvironment(
            sim.get_execution_environment(a),
        ),
        Request::GetShardBlock(a) => Response::ShardBlock(sim.get_shard_block(a)),
        Request::GetSimulationState(a) => Response::SimulationState(sim.simulation_state(a)),
    }
}

/// The client side's last decision: a reply that arrived is the call's
/// result, and a reply channel that closed without one means the actor
/// terminated — the call fails with `Terminated` rather than hanging.
pub fn reply_or_terminated<T>(reply: Option<T>) -> (r: Result<T, Error>)
    ensures
        match reply {
            Some(v) => r matches Ok(w) && w == v,
            None => r matches Err(e) && e is Terminated,
        },
{
    match reply {
        Some(v) => Ok(v),
        None => Err(Error::Terminated),
    }
}

} // verus!
