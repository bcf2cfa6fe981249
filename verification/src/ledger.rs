//! The ledger itself: a beacon chain registering execution environments and
//! a growing list of shard chains, each an append-only log of blocks. The
//! `Simulation` state machine owns all of it, validates every request, and
//! mutates all-or-nothing.

use std::collections::HashMap;
use vstd::prelude::*;

use crate::args;
use crate::codec::{b64_decode_of, b64_enc, decode_text, encode_bytes};
use crate::errors::Error;
use crate::text::{decimal_rep, u32_to_decimal};

verus! {

/// The position of an execution environment in the beacon chain's registry.
/// Indices are assigned in registration order and never reused.
#[derive(Debug, Default, Hash, Clone, Copy, Eq, PartialEq, Structural)]
pub struct EeIndex(pub u32);

/// A registered unit of opaque executable code. Immutable once created.
#[derive(Debug)]
pub struct ExecutionEnvironment {
    pub wasm_code: Vec<u8>,
}

impl View for ExecutionEnvironment {
    type V = Seq<u8>;

    open spec fn view(&self) -> Seq<u8> {
        self.wasm_code@
    }
}

/// The per-shard execution state of one execution environment. Reserved for
/// future transaction execution; nothing writes it yet.
#[derive(Debug)]
pub struct ExecutionEnvironmentState {
    pub data: [u8; 32],
}

/// The mathematical value of a stored transaction: its raw data and the
/// registry index of the execution environment it references.
#[verifier::ext_equal]
pub struct TransactionModel {
    pub data: Seq<u8>,
    pub ee_index: u32,
}

/// Opaque transaction data paired with a reference to an execution
/// environment. The reference is not checked against the registry's size.
#[derive(Debug, Default)]
pub struct ShardTransaction {
    pub data: Vec<u8>,
    pub ee_index: EeIndex,
}

impl View for ShardTransaction {
    type V = TransactionModel;

    open spec fn view(&self) -> TransactionModel {
        TransactionModel { data: self.data@, ee_index: self.ee_index.0 }
    }
}

/// An ordered batch of transactions, appended to a shard chain as a whole.
#[derive(Debug)]
pub struct ShardBlock {
    pub transactions: Vec<ShardTransaction>,
}

impl View for ShardBlock {
    type V = Seq<TransactionModel>;

    open spec fn view(&self) -> Seq<TransactionModel> {
        self.transactions@.map_values(|t: ShardTransaction| t@)
    }
}

impl ShardBlock {
    pub fn new(transactions: Vec<ShardTransaction>) -> (r: ShardBlock)
        ensures
            r@ == transactions@.map_values(|t: ShardTransaction| t@),
    {
        ShardBlock { transactions }
    }

    pub fn add_transaction(&mut self, transaction: ShardTransaction)
        ensures
            final(self)@ == old(self)@.push(transaction@),
    {
        let ghost pushed = transaction@;
        self.transactions.push(transaction);
        proof {
            assert(self@ =~= old(self)@.push(pushed));
        }
    }
}

/// One shard chain: its append-only block log, plus the reserved per-shard
/// execution-environment state.
#[derive(Debug)]
pub struct ShardChain {
    pub execution_environment_state: HashMap<EeIndex, ExecutionEnvironmentState>,
    pub shard_blocks: Vec<ShardBlock>,
}

impl View for ShardChain {
    type V = Seq<Seq<TransactionModel>>;

    open spec fn view(&self) -> Seq<Seq<TransactionModel>> {
        self.shard_blocks@.map_values(|b: ShardBlock| b@)
    }
}

impl ShardChain {
    pub fn new() -> (r: ShardChain)
        ensures
            r@ == Seq::<Seq<TransactionModel>>::empty(),
    {
        let r = ShardChain { execution_environment_state: HashMap::new(), shard_blocks: Vec::new() };
        proof {
            assert(r@ =~= Seq::<Seq<TransactionModel>>::empty());
        }
        r
    }

    /// Appends one block to this chain's log and returns its zero-based
    /// index: the number of blocks the chain held before the call.
    pub fn append_block(&mut self, block: ShardBlock) -> (r: u32)
        requires
            old(self)@.len() < u32::MAX as nat,
        ensures
            final(self)@ == old(self)@.push(block@),
            r as nat == old(self)@.len(),
    {
        let ghost pushed = block@;
        self.shard_blocks.push(block);
        proof {
            assert(self@ =~= old(self)@.push(pushed));
        }
        (self.shard_blocks.len() - 1) as u32
    }
}

/// The global registry of execution environments.
#[derive(Debug)]
pub struct BeaconChain {
    pub execution_environments: Vec<ExecutionEnvironment>,
}

impl BeaconChain {
    /// The registry as a sequence of code payloads, in registration order.
    pub open spec fn environments(self) -> Seq<Seq<u8>> {
        self.execution_environments@.map_values(|e: ExecutionEnvironment| e@)
    }

    pub fn new() -> (r: BeaconChain)
        ensures
            r.environments() == Seq::<Seq<u8>>::empty(),
    {
        let r = BeaconChain { execution_environments: Vec::new() };
        proof {
            assert(r.environments() =~= Seq::<Seq<u8>>::empty());
        }
        r
    }

    /// Appends a new execution environment and returns its index: the number
    /// of environments registered before it.
    pub fn add_execution_environment(&mut self, execution_environment: ExecutionEnvironment) -> (r:
        EeIndex)
        requires
            old(self).environments().len() < u32::MAX as nat,
        ensures
            final(self).environments() == old(self).environments().push(execution_environment@),
            r.0 as nat == old(self).environments().len(),
    {
        let ghost added = execution_environment@;
        self.execution_environments.push(execution_environment);
        proof {
            assert(self.environments() =~= old(self).environments().push(added));
        }
        EeIndex((self.execution_environments.len() - 1) as u32)
    }
}

/// Whether a boundary transaction's text-encoded data is well-formed.
pub open spec fn transaction_decodable(t: args::TransactionText) -> bool {
    b64_decode_of(t.encoded_data) is Some
}

/// The stored transaction that a well-formed boundary transaction decodes to.
pub open spec fn decoded_transaction(t: args::TransactionText) -> TransactionModel
    recommends
        transaction_decodable(t),
{
    TransactionModel { data: b64_decode_of(t.encoded_data).unwrap(), ee_index: t.ee_index }
}

/// Whether every transaction of a boundary block is well-formed.
pub open spec fn block_decodable(b: Seq<args::TransactionText>) -> bool {
    forall|i: int| 0 <= i < b.len() ==> transaction_decodable(#[trigger] b[i])
}

/// The stored block that a fully well-formed boundary block decodes to.
pub open spec fn decoded_block(b: Seq<args::TransactionText>) -> Seq<TransactionModel>
    recommends
        block_decodable(b),
{
    b.map_values(|t: args::TransactionText| decoded_transaction(t))
}

/// The boundary form of a stored transaction: its data re-encoded as text.
pub open spec fn encoded_transaction(t: TransactionModel) -> args::TransactionText {
    args::TransactionText { encoded_data: b64_enc(t.data), ee_index: t.ee_index }
}

/// The boundary form of a stored block.
pub open spec fn encoded_block(b: Seq<TransactionModel>) -> Seq<args::TransactionText> {
    b.map_values(|t: TransactionModel| encoded_transaction(t))
}

/// The message of an out-of-bounds failure on an execution-environment lookup.
pub open spec fn no_environment_message(index: u32) -> Seq<char> {
    "No execution environment exists at index: "@ + decimal_rep(index as nat)
}

/// The message of an out-of-bounds failure on a block append.
pub open spec fn no_shard_chain_message(index: u32) -> Seq<char> {
    "No shard chain exists at index: "@ + decimal_rep(index as nat)
}

/// The message of a block lookup naming a shard chain that does not exist.
pub open spec fn missing_chain_message(shard_chain_index: u32) -> Seq<char> {
    "no shard chain exists at index '"@ + decimal_rep(shard_chain_index as nat) + "'"@
}

/// The message of a block lookup whose chain exists but whose block does not.
pub open spec fn missing_block_message(shard_chain_index: u32, shard_block_index: u32) -> Seq<
    char,
> {
    "the shard chain at index '"@ + decimal_rep(shard_chain_index as nat)
        + "' does not contain a block at index '"@ + decimal_rep(shard_block_index as nat) + "'"@
}

fn oob_no_environment(index: u32) -> (r: Error)
    ensures
        r matches Error::OutOfBounds { message } && message@ == no_environment_message(index),
{
    let mut message = "No execution environment exists at index: ".to_owned();
    let rendered = u32_to_decimal(index);
    message.append(rendered.as_str());
    Error::OutOfBounds { message }
}

fn oob_no_shard_chain(index: u32) -> (r: Error)
    ensures
        r matches Error::OutOfBounds { message } && message@ == no_shard_chain_message(index),
{
    let mut message = "No shard chain exists at index: ".to_owned();
    let rendered = u32_to_decimal(index);
    message.append(rendered.as_str());
    Error::OutOfBounds { message }
}

fn oob_missing_chain(shard_chain_index: u32) -> (r: Error)
    ensures
        r matches Error::OutOfBounds { message } && message@ == missing_chain_message(
            shard_chain_index,
        ),
{
    let mut message = "no shard chain exists at index '".to_owned();
    let rendered = u32_to_decimal(shard_chain_index);
    message.append(rendered.as_str());
    message.append("'");
    Error::OutOfBounds { message }
}

fn oob_missing_block(shard_chain_index: u32, shard_block_index: u32) -> (r: Error)
    ensures
        r matches Error::OutOfBounds { message } && message@ == missing_block_message(
            shard_chain_index,
            shard_block_index,
        ),
{
    let mut message = "the shard chain at index '".to_owned();
    let chain_rendered = u32_to_decimal(shard_chain_index);
    message.append(chain_rendered.as_str());
    message.append("' does not contain a block at index '");
    let block_rendered = u32_to_decimal(shard_block_index);
    message.append(block_rendered.as_str());
    message.append("'");
    Error::OutOfBounds { message }
}

impl ShardTransaction {
    /// Decodes a boundary transaction, failing on malformed text.
    pub fn try_from_args(t: &args::ShardTransaction) -> (r: Result<ShardTransaction, Error>)
        ensures
            match r {
                Ok(tx) => transaction_decodable(t@) && tx@ == decoded_transaction(t@),
                Err(e) => !transaction_decodable(t@) && e is Decode,
            },
    {
        match decode_text(t.base64_encoded_data.as_str()) {
            Ok(data) => Ok(ShardTransaction { data, ee_index: EeIndex(t.ee_index) }),
            Err(source) => Err(Error::Decode { source }),
        }
    }

    /// Re-encodes a stored transaction into its boundary form; the text is
    /// guaranteed to decode back to the stored data.
    pub fn to_args(&self) -> (r: args::ShardTransaction)
        ensures
            r@ == encoded_transaction(self@),
            b64_decode_of(r@.encoded_data) == Some(self@.data),
    {
        args::ShardTransaction {
            base64_encoded_data: encode_bytes(&self.data),
            ee_index: self.ee_index.0,
        }
    }
}

impl ShardBlock {
    /// Decodes a whole boundary block, failing on the first malformed
    /// transaction without keeping any part of the block.
    pub fn try_from_args(b: &args::ShardBlock) -> (r: Result<ShardBlock, Error>)
        ensures
            match r {
                Ok(block) => block_decodable(b@) && block@ == decoded_block(b@),
                Err(e) => !block_decodable(b@) && e is Decode,
            },
    {
        let mut transactions: Vec<ShardTransaction> = Vec::new();
        let n = b.transactions.len();
        let mut k: usize = 0;
        while k < n
            invariant
                n == b.transactions.len(),
                k <= n,
                transactions@.len() == k,
                forall|i: int| 0 <= i < k ==> transaction_decodable(#[trigger] b@[i]),
                forall|i: int|
                    0 <= i < k ==> #[trigger] transactions@[i]@ == decoded_transaction(b@[i]),
            decreases n - k,
        {
            proof {
                assert(b@[k as int] == b.transactions@[k as int]@);
            }
            match ShardTransaction::try_from_args(&b.transactions[k]) {
                Ok(tx) => {
                    transactions.push(tx);
                },
                Err(e) => {
                    return Err(e);
                },
            }
            k = k + 1;
        }
        proof {
            assert(transactions@.map_values(|t: ShardTransaction| t@) =~= decoded_block(b@));
        }
        Ok(ShardBlock { transactions })
    }

    /// Re-encodes a stored block into its boundary form; every transaction's
    /// text is guaranteed to decode back to the stored data.
    pub fn to_args(&self) -> (r: args::ShardBlock)
        ensures
            r@ == encoded_block(self@),
            block_decodable(r@),
            decoded_block(r@) == self@,
    {
        let mut transactions: Vec<args::ShardTransaction> = Vec::new();
        let n = self.transactions.len();
        let mut k: usize = 0;
        while k < n
            invariant
                n == self.transactions.len(),
                k <= n,
                transactions@.len() == k,
                forall|i: int|
                    0 <= i < k ==> #[trigger] transactions@[i]@ == encoded_transaction(self@[i]),
                forall|i: int|
                    0 <= i < k ==> b64_decode_of(#[trigger] transactions@[i]@.encoded_data)
                        == Some(self@[i].data),
            decreases n - k,
        {
            proof {
                assert(self@[k as int] == self.transactions@[k as int]@);
            }
            let encoded = self.transactions[k].to_args();
            transactions.push(encoded);
            k = k + 1;
        }
        let r = args::ShardBlock { transactions };
        proof {
            assert(r@ =~= encoded_block(self@));
            assert forall|i: int| 0 <= i < r@.len() implies transaction_decodable(
                #[trigger] r@[i],
            ) && decoded_transaction(r@[i]) == self@[i] by {
                assert(r@[i] == transactions@[i]@);
            }
            assert(decoded_block(r@) =~= self@);
        }
        r
    }
}

/// The whole ledger: the beacon chain's registry and the list of shard
/// chains. The single owner of all mutable state; every operation validates
/// its inputs first and mutates all-or-nothing.
#[derive(Debug)]
pub struct Simulation {
    beacon_chain: BeaconChain,
    shard_chains: Vec<ShardChain>,
}

/// What a state summary returns: the exact current counts.
pub open spec fn simulation_state_post(sim: Simulation, r: args::SimulationState) -> bool {
    &&& r.num_execution_environments as nat == sim.environments().len()
    &&& r.num_shard_chains as nat == sim.shards().len()
}

/// What a registration does: on well-formed text the decoded code is
/// appended and the returned index is the registry's old size; on malformed
/// text it fails with `Decode` and changes nothing. Shard chains are never
/// touched.
pub open spec fn create_execution_environment_post(
    pre: Simulation,
    post: Simulation,
    a: args::CreateExecutionEnvironment,
    r: Result<u32, Error>,
) -> bool {
    &&& post.shards() == pre.shards()
    &&& match r {
        Ok(index) => {
            &&& b64_decode_of(a.execution_environment.base64_encoded_wasm_code@) is Some
            &&& index as nat == pre.environments().len()
            &&& post.environments() == pre.environments().push(
                b64_decode_of(a.execution_environment.base64_encoded_wasm_code@).unwrap(),
            )
        },
        Err(e) => {
            &&& b64_decode_of(a.execution_environment.base64_encoded_wasm_code@) is None
            &&& e is Decode
            &&& post.environments() == pre.environments()
        },
    }
}

/// What a registry lookup returns: for an index below the registry's size,
/// the stored code re-encoded as text that decodes back to it; at or past
/// the size, `OutOfBounds` with a message naming the index.
pub open spec fn get_execution_environment_post(
    sim: Simulation,
    a: args::GetExecutionEnvironment,
    r: Result<args::ExecutionEnvironment, Error>,
) -> bool {
    match r {
        Ok(record) => {
            &&& (a.execution_environment_index as nat) < sim.environments().len()
            &&& record.base64_encoded_wasm_code@ == b64_enc(
                sim.environments()[a.execution_environment_index as int],
            )
            &&& b64_decode_of(record.base64_encoded_wasm_code@) == Some(
                sim.environments()[a.execution_environment_index as int],
            )
        },
        Err(e) => {
            &&& (a.execution_environment_index as nat) >= sim.environments().len()
            &&& e matches Error::OutOfBounds { message } && message@ == no_environment_message(
                a.execution_environment_index,
            )
        },
    }
}

/// What a shard-chain creation does: appends one empty chain, returns the
/// old number of chains, and never touches the registry.
pub open spec fn create_shard_chain_post(pre: Simulation, post: Simulation, r: u32) -> bool {
    &&& post.environments() == pre.environments()
    &&& r as nat == pre.shards().len()
    &&& post.shards() == pre.shards().push(Seq::<Seq<TransactionModel>>::empty())
}

/// What a block append does: with an existing chain and a fully well-formed
/// block, the decoded block is appended to that chain alone and its index
/// within the chain is returned; otherwise `OutOfBounds` (no such chain) or
/// `Decode` (some malformed transaction), and the whole ledger is unchanged
/// — no partial append. The registry is never touched.
pub open spec fn create_shard_block_post(
    pre: Simulation,
    post: Simulation,
    a: args::CreateShardBlock,
    r: Result<u32, Error>,
) -> bool {
    &&& post.environments() == pre.environments()
    &&& match r {
        Ok(index) => {
            &&& (a.shard_chain_index as nat) < pre.shards().len()
            &&& block_decodable(a.shard_block@)
            &&& index as nat == pre.shards()[a.shard_chain_index as int].len()
            &&& post.shards() == pre.shards().update(
                a.shard_chain_index as int,
                pre.shards()[a.shard_chain_index as int].push(decoded_block(a.shard_block@)),
            )
        },
        Err(e) => {
            &&& post.shards() == pre.shards()
            &&& if (a.shard_chain_index as nat) >= pre.shards().len() {
                e matches Error::OutOfBounds { message } && message@ == no_shard_chain_message(
                    a.shard_chain_index,
                )
            } else {
                !block_decodable(a.shard_block@) && e is Decode
            }
        },
    }
}

/// What a block lookup returns: for indices in range, the stored block with
/// each transaction re-encoded as text that decodes back to it; otherwise
/// `OutOfBounds` with a message naming the first index out of range.
pub open spec fn get_shard_block_post(
    sim: Simulation,
    a: args::GetShardBlock,
    r: Result<args::ShardBlock, Error>,
) -> bool {
    match r {
        Ok(record) => {
            &&& (a.shard_chain_index as nat) < sim.shards().len()
            &&& (a.shard_block_index as nat) < sim.shards()[a.shard_chain_index as int].len()
            &&& record@ == encoded_block(
                sim.shards()[a.shard_chain_index as int][a.shard_block_index as int],
            )
            &&& decoded_block(record@) == sim.shards()[a.shard_chain_index as int][
                a.shard_block_index as int
            ]
        },
        Err(e) => {
            if (a.shard_chain_index as nat) >= sim.shards().len() {
                e matches Error::OutOfBounds { message } && message@ == missing_chain_message(
                    a.shard_chain_index,
                )
            } else {
                &&& (a.shard_block_index as nat) >= sim.shards()[a.shard_chain_index as int].len()
                &&& e matches Error::OutOfBounds { message } && message@ == missing_block_message(
                    a.shard_chain_index,
                    a.shard_block_index,
                )
            }
        },
    }
}

impl Simulation {
    /// The registry's code payloads, in registration order.
    pub closed spec fn environments(self) -> Seq<Seq<u8>> {
        self.beacon_chain.environments()
    }

    /// Every shard chain's block log, in creation order.
    pub closed spec fn shards(self) -> Seq<Seq<Seq<TransactionModel>>> {
        self.shard_chains@.map_values(|c: ShardChain| c@)
    }

    /// Well-formedness: every count stays within the index space handed out
    /// to callers, so previously issued indices remain valid forever.
    pub open spec fn inv(self) -> bool {
        &&& self.environments().len() <= u32::MAX as nat
        &&& self.shards().len() <= u32::MAX as nat
        &&& forall|i: int|
            0 <= i < self.shards().len() ==> (#[trigger] self.shards()[i]).len() <= u32::MAX as nat
    }

    /// A fresh ledger: no execution environments, no shard chains.
    pub fn new() -> (r: Simulation)
        ensures
            r.inv(),
            r.environments() == Seq::<Seq<u8>>::empty(),
            r.shards() == Seq::<Seq<Seq<TransactionModel>>>::empty(),
    {
        let r = Simulation { beacon_chain: BeaconChain::new(), shard_chains: Vec::new() };
        proof {
            assert(r.shards() =~= Seq::<Seq<Seq<TransactionModel>>>::empty());
        }
        r
    }

    /// A consistent point-in-time summary: how many execution environments
    /// and how many shard chains exist. Never fails.
    pub fn simulation_state(&self, _args: args::GetSimulationState) -> (r: args::SimulationState)
        requires
            self.inv(),
        ensures
            simulation_state_post(*self, r),
    {
        args::SimulationState {
            num_execution_environments: self.beacon_chain.execution_environments.len() as u32,
            num_shard_chains: self.shard_chains.len() as u32,
        }
    }

    /// Decodes the text-encoded code payload and appends it to the beacon
    /// chain. Returns the new zero-based index — exactly the number of
    /// environments registered before the call — or fails with `Decode` on
    /// malformed text, leaving the ledger unchanged.
    pub fn create_execution_environment(
        &mut self,
        args: args::CreateExecutionEnvironment,
    ) -> (r: Result<u32, Error>)
        requires
            old(self).inv(),
            old(self).environments().len() < u32::MAX as nat,
        ensures
            final(self).inv(),
            create_execution_environment_post(*old(self), *final(self), args, r),
    {
        let code = match decode_text(args.execution_environment.base64_encoded_wasm_code.as_str()) {
            Ok(code) => code,
            Err(source) => {
                return Err(Error::Decode { source });
            },
        };
        let execution_environment = ExecutionEnvironment { wasm_code: code };
        let EeIndex(ee_index) = self.beacon_chain.add_execution_environment(
            execution_environment,
        );
        Ok(ee_index)
    }

    /// Returns the environment at the given registry index, its code
    /// re-encoded as text that decodes back to the stored bytes; fails with
    /// `OutOfBounds` exactly when the index is at or past the registry's
    /// size.
    pub fn get_execution_environment(
        &self,
        args: args::GetExecutionEnvironment,
    ) -> (r: Result<args::ExecutionEnvironment, Error>)
        requires
            self.inv(),
        ensures
            get_execution_environment_post(*self, args, r),
    {
        let index = args.execution_environment_index as usize;
        if index < self.beacon_chain.execution_environments.len() {
            let code = encode_bytes(&self.beacon_chain.execution_environments[index].wasm_code);
            Ok(args::ExecutionEnvironment { base64_encoded_wasm_code: code })
        } else {
            Err(oob_no_environment(args.execution_environment_index))
        }
    }

    /// Unconditionally appends a new, empty shard chain and returns its
    /// zero-based index: the number of shard chains created before the call.
    pub fn create_shard_chain(&mut self, _args: args::CreateShardChain) -> (r: u32)
        requires
            old(self).inv(),
            old(self).shards().len() < u32::MAX as nat,
        ensures
            final(self).inv(),
            create_shard_chain_post(*old(self), *final(self), r),
    {
        let shard_chain = ShardChain::new();
        self.shard_chains.push(shard_chain);
        proof {
            assert(self.shards() =~= old(self).shards().push(
                Seq::<Seq<TransactionModel>>::empty(),
            ));
        }
        (self.shard_chains.len() - 1) as u32
    }

    /// Appends a whole block to the shard chain at the given index. Fails
    /// with `OutOfBounds` exactly when no such shard chain exists, and with
    /// `Decode` exactly when the chain exists but some transaction's text is
    /// malformed; on any failure the ledger is unchanged. On success the
    /// fully decoded block is appended and its zero-based index within that
    /// chain is returned.
    pub fn create_shard_block(&mut self, args: args::CreateShardBlock) -> (r: Result<u32, Error>)
        requires
            old(self).inv(),
            (args.shard_chain_index as nat) < old(self).shards().len() ==> old(self).shards()[
                args.shard_chain_index as int
            ].len() < u32::MAX as nat,
        ensures
            final(self).inv(),
            create_shard_block_post(*old(self), *final(self), args, r),
    {
        let index = args.shard_chain_index as usize;
        if index >= self.shard_chains.len() {
            return Err(oob_no_shard_chain(args.shard_chain_index));
        }
        let shard_block = match ShardBlock::try_from_args(&args.shard_block) {
            Ok(shard_block) => shard_block,
            Err(e) => {
                return Err(e);
            },
        };
        let ghost block_model = shard_block@;
        let block_index = self.shard_chains[index].append_block(shard_block);
        proof {
            assert(self.shards() =~= old(self).shards().update(
                index as int,
                old(self).shards()[index as int].push(block_model),
            ));
        }
        Ok(block_index)
    }

    /// The number of blocks held by the shard chain at the given index;
    /// fails with `OutOfBounds` exactly when no such chain exists.
    pub fn shard_block_count(&self, shard_chain_index: u32) -> (r: Result<u32, Error>)
        requires
            self.inv(),
        ensures
            match r {
                Ok(count) => {
                    &&& (shard_chain_index as nat) < self.shards().len()
                    &&& count as nat == self.shards()[shard_chain_index as int].len()
                },
                Err(e) => {
                    &&& (shard_chain_index as nat) >= self.shards().len()
                    &&& e matches Error::OutOfBounds { message } && message@
                        == missing_chain_message(shard_chain_index)
                },
            },
    {
        let index = shard_chain_index as usize;
        if index >= self.shard_chains.len() {
            return Err(oob_missing_chain(shard_chain_index));
        }
        Ok(self.shard_chains[index].shard_blocks.len() as u32)
    }

    /// Returns the block at the given position, each transaction's data
    /// re-encoded as text that decodes back to the stored bytes. Fails with
    /// `OutOfBounds` exactly when the shard-chain index or the block index
    /// is out of range, with a message identifying which one.
    pub fn get_shard_block(&self, args: args::GetShardBlock) -> (r: Result<args::ShardBlock, Error>)
        requires
            self.inv(),
        ensures
            get_shard_block_post(*self, args, r),
    {
        let chain_index = args.shard_chain_index as usize;
        if chain_index >= self.shard_chains.len() {
            return Err(oob_missing_chain(args.shard_chain_index));
        }
        let shard_chain = &self.shard_chains[chain_index];
        let block_index = args.shard_block_index as usize;
        if block_index >= shard_chain.shard_blocks.len() {
            return Err(oob_missing_block(args.shard_chain_index, args.shard_block_index));
        }
        Ok(shard_chain.shard_blocks[block_index].to_args())
    }
}

/// How one accepted registration changes the registry: exactly what the
/// `Ok` case of `create_execution_environment` ensures about it.
pub open spec fn registration_step(
    pre: Seq<Seq<u8>>,
    code: Seq<char>,
    index: u32,
    post: Seq<Seq<u8>>,
) -> bool {
    &&& b64_decode_of(code) is Some
    &&& index as nat == pre.len()
    &&& post == pre.push(b64_decode_of(code).unwrap())
}

proof fn lemma_registry_size_after_steps(
    codes: Seq<Seq<char>>,
    indices: Seq<u32>,
    registries: Seq<Seq<Seq<u8>>>,
    k: int,
)
    requires
        registries.len() == codes.len() + 1,
        indices.len() == codes.len(),
        registries[0] == Seq::<Seq<u8>>::empty(),
        forall|j: int|
            0 <= j < codes.len() ==> #[trigger] registration_step(
                registries[j],
                codes[j],
                indices[j],
                registries[j + 1],
            ),
        0 <= k <= codes.len(),
    ensures
        registries[k].len() == k,
    decreases k,
{
    if k > 0 {
        let j = k - 1;
        lemma_registry_size_after_steps(codes, indices, registries, j);
        assert(registration_step(registries[j], codes[j], indices[j], registries[j + 1]));
    }
}

/// What "append-only" means across one step: nothing visible before the step
/// is removed, reordered or rewritten by it, so an index once returned keeps
/// resolving to the same entity for the lifetime of the ledger.
pub open spec fn preserves_existing_entries(pre: Simulation, post: Simulation) -> bool {
    &&& pre.environments().len() <= post.environments().len()
    &&& forall|i: int|
        0 <= i < pre.environments().len() ==> #[trigger] post.environments()[i]
            == pre.environments()[i]
    &&& pre.shards().len() <= post.shards().len()
    &&& forall|s: int|
        0 <= s < pre.shards().len() ==> (#[trigger] pre.shards()[s]).len()
            <= post.shards()[s].len()
    &&& forall|s: int, j: int|
        0 <= s < pre.shards().len() && 0 <= j < pre.shards()[s].len()
            ==> #[trigger] post.shards()[s][j] == pre.shards()[s][j]
}

/// Law: a registration, whatever its outcome, only ever appends.
pub proof fn lemma_registration_is_append_only(
    pre: Simulation,
    post: Simulation,
    a: args::CreateExecutionEnvironment,
    r: Result<u32, Error>,
)
    requires
        create_execution_environment_post(pre, post, a, r),
    ensures
        preserves_existing_entries(pre, post),
{
}

/// Law: a shard-chain creation only ever appends.
pub proof fn lemma_chain_creation_is_append_only(pre: Simulation, post: Simulation, r: u32)
    requires
        create_shard_chain_post(pre, post, r),
    ensures
        preserves_existing_entries(pre, post),
{
}

/// Law: a block append, whatever its outcome, only ever appends.
pub proof fn lemma_block_append_is_append_only(
    pre: Simulation,
    post: Simulation,
    a: args::CreateShardBlock,
    r: Result<u32, Error>,
)
    requires
        create_shard_block_post(pre, post, a, r),
    ensures
        preserves_existing_entries(pre, post),
{
}

/// Law: fetching right after an accepted registration yields text that
/// decodes back to exactly the bytes the registration stored — the bytes the
/// submitted text decoded to.
pub proof fn lemma_register_then_fetch_round_trip(
    pre: Simulation,
    post: Simulation,
    reg: args::CreateExecutionEnvironment,
    index: u32,
    get: args::GetExecutionEnvironment,
    fetched: args::ExecutionEnvironment,
)
    requires
        create_execution_environment_post(pre, post, reg, Ok(index)),
        get.execution_environment_index == index,
        get_execution_environment_post(post, get, Ok(fetched)),
    ensures
        b64_decode_of(fetched.base64_encoded_wasm_code@) == Some(
            b64_decode_of(reg.execution_environment.base64_encoded_wasm_code@).unwrap(),
        ),
{
}

/// Law: a registry lookup succeeds exactly on the indices strictly below the
/// environment count that a snapshot of the same state reports, and fails
/// with `OutOfBounds` on all others.
pub proof fn lemma_lookup_succeeds_below_snapshot_count(
    sim: Simulation,
    state: args::SimulationState,
    get: args::GetExecutionEnvironment,
    r: Result<args::ExecutionEnvironment, Error>,
)
    requires
        simulation_state_post(sim, state),
        get_execution_environment_post(sim, get, r),
    ensures
        r is Ok <==> get.execution_environment_index < state.num_execution_environments,
        r matches Err(e) ==> e is OutOfBounds,
{
}

/// Law: a block append naming a shard chain that does not exist always fails
/// with `OutOfBounds` and leaves the shard-chain list, every existing block,
/// and the registry unchanged.
pub proof fn lemma_append_to_missing_shard_changes_nothing(
    pre: Simulation,
    post: Simulation,
    a: args::CreateShardBlock,
    r: Result<u32, Error>,
)
    requires
        (a.shard_chain_index as nat) >= pre.shards().len(),
        create_shard_block_post(pre, post, a, r),
    ensures
        r matches Err(e) && e is OutOfBounds,
        post.shards() == pre.shards(),
        post.environments() == pre.environments(),
{
}

/// Law: a block holding even one malformed transaction payload is rejected
/// in full — the append fails with `Decode` and the target chain's block log,
/// like all other state, is unchanged. No partial append is possible.
pub proof fn lemma_one_malformed_transaction_rejects_whole_block(
    pre: Simulation,
    post: Simulation,
    a: args::CreateShardBlock,
    r: Result<u32, Error>,
    k: int,
)
    requires
        (a.shard_chain_index as nat) < pre.shards().len(),
        0 <= k < a.shard_block@.len(),
        !transaction_decodable(a.shard_block@[k]),
        create_shard_block_post(pre, post, a, r),
    ensures
        r matches Err(e) && e is Decode,
        post.shards() == pre.shards(),
        post.environments() == pre.environments(),
{
    assert(!block_decodable(a.shard_block@));
}

/// Law: over any run of accepted registrations starting from a fresh ledger,
/// the returned indices are exactly 0, 1, 2, ... in call-acceptance order,
/// with no gaps or repeats.
pub proof fn lemma_registration_indices_consecutive(
    codes: Seq<Seq<char>>,
    indices: Seq<u32>,
    registries: Seq<Seq<Seq<u8>>>,
)
    requires
        registries.len() == codes.len() + 1,
        indices.len() == codes.len(),
        registries[0] == Seq::<Seq<u8>>::empty(),
        forall|j: int|
            0 <= j < codes.len() ==> #[trigger] registration_step(
                registries[j],
                codes[j],
                indices[j],
                registries[j + 1],
            ),
    ensures
        forall|j: int| 0 <= j < indices.len() ==> #[trigger] indices[j] as int == j,
{
    assert forall|j: int| 0 <= j < indices.len() implies #[trigger] indices[j] as int == j by {
        lemma_registry_size_after_steps(codes, indices, registries, j);
        assert(registration_step(registries[j], codes[j], indices[j], registries[j + 1]));
    }
}

} // verus!
