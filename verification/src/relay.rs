//! The relay sender: it owns no signing identity (the node's default
//! account signs), submits blocks through the `submitBlockLegacy` method,
//! and — the materially weaker guarantee of this mode — marks a block
//! `Verified` as soon as the node accepts the transaction for broadcast,
//! without waiting for any confirmation depth. "Verified" here means
//! accepted by the node, not finalized on chain.

use vstd::prelude::*;
use crate::hex_text::{parse_address, parsed_address, valid_address_text};
use crate::store::{status_updated, RowModel, StatusStore};
use crate::types::{
    call_block_id, copy_vec, BlockStatus, ChainCall, ChainMethod, ContractCall, EthAddress,
    RelayOutcome, SetupError, SubmitBlockArgs, SubmitError,
};

verus! {

/// Configuration of a relay sender: the contract address as hex text and a
/// configured confirmation depth, which this mode carries but never waits
/// on.
pub struct RelayConfig {
    pub contract_address: Vec<u8>,
    pub confirmations: u64,
}

/// The store after the relay sender records a broadcast outcome: an
/// accepted transaction sets the keyed row's status to `Verified` at once,
/// leaving its hash column untouched; a failure writes nothing at all.
pub open spec fn store_after_relay(m: Map<u64, RowModel>, block_id: u64, outcome: RelayOutcome) -> Map<
    u64,
    RowModel,
> {
    match outcome {
        RelayOutcome::Accepted => status_updated(m, block_id, BlockStatus::Verified),
        RelayOutcome::Failed(_) => m,
    }
}

/// The store after the relay sender drains a batch in arrival order.
pub open spec fn store_after_relay_run(
    m: Map<u64, RowModel>,
    calls: Seq<ContractCall>,
    outcomes: Seq<RelayOutcome>,
) -> Map<u64, RowModel>
    recommends
        calls.len() == outcomes.len(),
    decreases calls.len(),
{
    if calls.len() == 0 {
        m
    } else {
        store_after_relay(
            store_after_relay_run(m, calls.drop_last(), outcomes.drop_last()),
            call_block_id(calls.last()),
            outcomes.last(),
        )
    }
}

/// Status is monotonic under the relay step too: a row that reads
/// `Verified` still reads `Verified` after any broadcast outcome for any
/// block is recorded.
pub proof fn lemma_relay_verified_monotonic(
    m: Map<u64, RowModel>,
    id: u64,
    block_id: u64,
    outcome: RelayOutcome,
)
    requires
        m.contains_key(id),
        m[id].status == BlockStatus::Verified,
    ensures
        store_after_relay(m, block_id, outcome).contains_key(id),
        store_after_relay(m, block_id, outcome)[id].status == BlockStatus::Verified,
{
}

/// Status is monotonic under whole relay batches as well: a row that reads
/// `Verified` still reads `Verified` after any batch is drained.
pub proof fn lemma_relay_verified_monotonic_over_run(
    m: Map<u64, RowModel>,
    id: u64,
    calls: Seq<ContractCall>,
    outcomes: Seq<RelayOutcome>,
)
    requires
        m.contains_key(id),
        m[id].status == BlockStatus::Verified,
        calls.len() == outcomes.len(),
    ensures
        store_after_relay_run(m, calls, outcomes).contains_key(id),
        store_after_relay_run(m, calls, outcomes)[id].status == BlockStatus::Verified,
    decreases calls.len(),
{
    if calls.len() > 0 {
        lemma_relay_verified_monotonic_over_run(m, id, calls.drop_last(), outcomes.drop_last());
        lemma_relay_verified_monotonic(
            store_after_relay_run(m, calls.drop_last(), outcomes.drop_last()),
            id,
            call_block_id(calls.last()),
            outcomes.last(),
        );
    }
}

/// A relay step is all or nothing as well: either the keyed row's status
/// ends `Verified` with its hash column and every other row untouched and
/// no row created, or the whole store is exactly as it was.
pub proof fn lemma_relay_all_or_nothing(m: Map<u64, RowModel>, block_id: u64, outcome: RelayOutcome)
    ensures
        ({
            let m2 = store_after_relay(m, block_id, outcome);
            ||| m2 == m
            ||| {
                &&& m.contains_key(block_id)
                &&& m2.contains_key(block_id)
                &&& m2[block_id].status == BlockStatus::Verified
                &&& m2[block_id].l1_tx_hash == m[block_id].l1_tx_hash
                &&& forall|id: u64| #![auto]
                    id != block_id && m.contains_key(id) ==> m2.contains_key(id) && m2[id] == m[id]
                &&& forall|id: u64| #![auto] m2.contains_key(id) ==> m.contains_key(id)
            }
        }),
{
}

/// A sender that delegates signing to the node and does not wait for
/// inclusion depth.
pub struct RelaySender {
    /// The status table the outcomes are recorded in.
    pub store: StatusStore,
    /// The verifier contract's address.
    pub contract: EthAddress,
    /// The configured confirmation depth; carried, but no call of this
    /// sender ever waits on it.
    pub confirmations: u64,
}

impl RelaySender {
    pub open spec fn wf(&self) -> bool {
        &&& self.store.wf()
        &&& self.contract.wf()
    }

    /// Builds a relay sender from configuration and an already-connected
    /// store. Only a malformed contract address can fail it; no signing
    /// identity is resolved in this mode.
    pub fn from_config_with_pool(config: &RelayConfig, store: StatusStore) -> (r: Result<
        Self,
        SetupError,
    >)
        requires
            store.wf(),
        ensures
            match r {
                Ok(s) => {
                    &&& s.wf()
                    &&& valid_address_text(config.contract_address@)
                    &&& s.contract.bytes@ == parsed_address(config.contract_address@)
                    &&& s.store == store
                    &&& s.confirmations == config.confirmations
                },
                Err(e) => e == SetupError::BadContractAddress && !valid_address_text(
                    config.contract_address@,
                ),
            },
    {
        let contract = match parse_address(config.contract_address.as_slice()) {
            Some(a) => a,
            None => {
                return Err(SetupError::BadContractAddress);
            },
        };
        Ok(RelaySender { store, contract, confirmations: config.confirmations })
    }

    /// The chain call that submits a block in relay mode: the
    /// `submitBlockLegacy` method with three payload fields and no public
    /// data, no signer of our own, and — whatever depth this sender was
    /// configured with — no confirmation wait at all.
    pub fn submit_block_call(&self, args: &SubmitBlockArgs) -> (c: ChainCall)
        ensures
            c.method == ChainMethod::SubmitBlockLegacy,
            c.block_id == Some(args.block_id),
            c.public_inputs@ == args.public_inputs@,
            c.serialized_proof@ == args.serialized_proof@,
            c.public_data is None,
            c.from is None,
            c.confirmations is None,
            !c.legacy_tx_encoding,
    {
        ChainCall {
            method: ChainMethod::SubmitBlockLegacy,
            block_id: Some(args.block_id),
            public_inputs: copy_vec(&args.public_inputs),
            serialized_proof: copy_vec(&args.serialized_proof),
            public_data: None,
            from: None,
            confirmations: None,
            legacy_tx_encoding: false,
        }
    }

    /// One submission in relay mode, as the worker performs it for a
    /// dequeued request: the runtime dispatches `submit_block_call(args)`
    /// without awaiting confirmations, and the broadcast outcome is
    /// recorded here. Acceptance marks the row `Verified` immediately,
    /// before any chain inclusion, touching only the status column; a
    /// failure writes nothing and is handed back for the runtime to log,
    /// exactly one per failed request.
    pub fn submit_block(&mut self, args: &SubmitBlockArgs, outcome: &RelayOutcome) -> (r: Result<
        (),
        SubmitError,
    >)
        requires
            old(self).wf(),
        ensures
            final(self).wf(),
            final(self).store@ == store_after_relay(old(self).store@, args.block_id, *outcome),
            final(self).contract == old(self).contract,
            final(self).confirmations == old(self).confirmations,
            match r {
                Ok(_) => *outcome == RelayOutcome::Accepted,
                Err(e) => *outcome matches RelayOutcome::Failed(k) && e == SubmitError::Gateway(k),
            },
    {
        match outcome {
            RelayOutcome::Accepted => {
                let _ = self.store.update_status(args.block_id, BlockStatus::Verified);
                Ok(())
            },
            RelayOutcome::Failed(k) => Err(SubmitError::Gateway(*k)),
        }
    }

    /// Dispatches one dequeued request by its kind.
    fn run_inner(&mut self, call: &ContractCall, outcome: &RelayOutcome) -> (r: Result<
        (),
        SubmitError,
    >)
        requires
            old(self).wf(),
        ensures
            final(self).wf(),
            final(self).store@ == store_after_relay(
                old(self).store@,
                call_block_id(*call),
                *outcome,
            ),
            final(self).contract == old(self).contract,
            final(self).confirmations == old(self).confirmations,
            r is Err <==> outcome is Failed,
    {
        match call {
            ContractCall::SubmitBlock(args) => self.submit_block(args, outcome),
        }
    }

    /// Drains a batch of queued requests strictly in arrival order, one
    /// broadcast at a time. Returns the block identifiers attempted, in
    /// queue order; a failed request is logged by the runtime and the batch
    /// advances without retry.
    pub fn run(&mut self, calls: &Vec<ContractCall>, outcomes: &Vec<RelayOutcome>) -> (attempts:
        Vec<u64>)
        requires
            old(self).wf(),
            calls@.len() == outcomes@.len(),
        ensures
            final(self).wf(),
            attempts@.len() == calls@.len(),
            forall|i: int|
                0 <= i < calls@.len() ==> attempts@[i] == call_block_id(#[trigger] calls@[i]),
            final(self).store@ == store_after_relay_run(old(self).store@, calls@, outcomes@),
            final(self).contract == old(self).contract,
            final(self).confirmations == old(self).confirmations,
    {
        let mut attempts: Vec<u64> = Vec::new();
        let n = calls.len();
        for i in 0..n
            invariant
                self.wf(),
                n == calls@.len(),
                calls@.len() == outcomes@.len(),
                attempts@.len() == i as int,
                forall|j: int|
                    0 <= j < i ==> attempts@[j] == call_block_id(#[trigger] calls@[j]),
                self.store@ == store_after_relay_run(
                    old(self).store@,
                    calls@.take(i as int),
                    outcomes@.take(i as int),
                ),
                self.contract == old(self).contract,
                self.confirmations == old(self).confirmations,
        {
            let block_id = match &calls[i] {
                ContractCall::SubmitBlock(args) => args.block_id,
            };
            attempts.push(block_id);
            let _ = self.run_inner(&calls[i], &outcomes[i]);
            proof {
                assert(calls@.take(i as int + 1).drop_last() =~= calls@.take(i as int));
                assert(outcomes@.take(i as int + 1).drop_last() =~= outcomes@.take(i as int));
                assert(calls@.take(i as int + 1).last() == calls@[i as int]);
                assert(outcomes@.take(i as int + 1).last() == outcomes@[i as int]);
            }
        }
        proof {
            assert(calls@.take(n as int) =~= calls@);
            assert(outcomes@.take(n as int) =~= outcomes@);
        }
        attempts
    }
}

} // verus!
