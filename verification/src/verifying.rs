//! The verifying sender: it owns a signing account, submits blocks through
//! the `submitBlock` contract method, blocks until its configured
//! confirmation depth is observed, and only then records `Verified` together
//! with the receipt's transaction hash. The embedding runtime dispatches the
//! calls this module describes and feeds the observed outcomes back in.

use vstd::prelude::*;
use crate::hex_text::{
    format_tx_hash, parse_address, parsed_address, tx_hash_text, valid_address_text,
    valid_tx_hash_text,
};
use crate::store::{row_updated, RowModel, StatusStore};
use crate::types::{
    call_block_id, copy_vec, BlockStatus, ChainCall, ChainMethod, ContractCall, EthAddress,
    SetupError, SubmitBlockArgs, SubmitError, SubmitOutcome,
};

verus! {

/// Configuration of a verifying sender, as plain values: the contract
/// address as hex text, the optional explicit signing address as hex text,
/// the confirmation depth applied to every submission, and whether
/// transactions use the legacy encoding instead of the fee-market one.
pub struct SenderConfig {
    pub contract_address: Vec<u8>,
    pub account: Option<Vec<u8>>,
    pub confirmations: u64,
    pub legacy_tx_encoding: bool,
}

/// The store after the verifying sender records a submission outcome: a
/// confirmed submission sets the keyed row to `Verified` with the receipt's
/// hash text (empty text where the confirmation wait yielded no receipt); a
/// failed one writes nothing at all.
pub open spec fn store_after_submit(
    m: Map<u64, RowModel>,
    block_id: u64,
    outcome: SubmitOutcome,
) -> Map<u64, RowModel> {
    match outcome {
        SubmitOutcome::Confirmed(h) => row_updated(
            m,
            block_id,
            BlockStatus::Verified,
            tx_hash_text(h.bytes@),
        ),
        SubmitOutcome::ConfirmedNoReceipt => row_updated(
            m,
            block_id,
            BlockStatus::Verified,
            Seq::empty(),
        ),
        SubmitOutcome::Failed(_) => m,
    }
}

/// The store after a batch of requests is drained in arrival order, the
/// i-th outcome recorded before the (i+1)-th request is taken up.
pub open spec fn store_after_run(
    m: Map<u64, RowModel>,
    calls: Seq<ContractCall>,
    outcomes: Seq<SubmitOutcome>,
) -> Map<u64, RowModel>
    recommends
        calls.len() == outcomes.len(),
    decreases calls.len(),
{
    if calls.len() == 0 {
        m
    } else {
        store_after_submit(
            store_after_run(m, calls.drop_last(), outcomes.drop_last()),
            call_block_id(calls.last()),
            outcomes.last(),
        )
    }
}

/// Recording a submission outcome is all or nothing: either the keyed row
/// ends `Verified` carrying well-formed hash text while every other row is
/// untouched and no row is created, or the whole store is exactly as it
/// was. A partial write cannot happen.
pub proof fn lemma_submit_all_or_nothing(m: Map<u64, RowModel>, block_id: u64, outcome: SubmitOutcome)
    requires
        outcome.wf(),
    ensures
        ({
            let m2 = store_after_submit(m, block_id, outcome);
            ||| m2 == m
            ||| {
                &&& m.contains_key(block_id)
                &&& m2.contains_key(block_id)
                &&& m2[block_id].status == BlockStatus::Verified
                &&& valid_tx_hash_text(m2[block_id].l1_tx_hash)
                &&& forall|id: u64| #![auto]
                    id != block_id && m.contains_key(id) ==> m2.contains_key(id) && m2[id] == m[id]
                &&& forall|id: u64| #![auto] m2.contains_key(id) ==> m.contains_key(id)
            }
        }),
{
    match outcome {
        SubmitOutcome::Confirmed(h) => {
            crate::hex_text::lemma_tx_hash_text_valid(h.bytes@);
        },
        SubmitOutcome::ConfirmedNoReceipt => {
        },
        SubmitOutcome::Failed(_) => {
        },
    }
}

/// Over a whole drained batch, each row either stands exactly as it was or
/// has moved to `Verified` carrying well-formed hash text; no row is ever
/// created or dropped by the batch.
pub proof fn lemma_run_all_or_nothing(
    m: Map<u64, RowModel>,
    calls: Seq<ContractCall>,
    outcomes: Seq<SubmitOutcome>,
    id: u64,
)
    requires
        calls.len() == outcomes.len(),
        forall|i: int| 0 <= i < outcomes.len() ==> (#[trigger] outcomes[i]).wf(),
    ensures
        ({
            let m2 = store_after_run(m, calls, outcomes);
            &&& m2.contains_key(id) <==> m.contains_key(id)
            &&& m.contains_key(id) ==> (m2[id] == m[id] || (m2[id].status == BlockStatus::Verified
                && valid_tx_hash_text(m2[id].l1_tx_hash)))
        }),
    decreases calls.len(),
{
    if calls.len() > 0 {
        assert forall|i: int| 0 <= i < outcomes.len() - 1 implies (#[trigger] outcomes.drop_last()[
            i
        ]).wf() by {
            assert(outcomes.drop_last()[i] == outcomes[i]);
        }
        lemma_run_all_or_nothing(m, calls.drop_last(), outcomes.drop_last(), id);
        let mr = store_after_run(m, calls.drop_last(), outcomes.drop_last());
        assert(outcomes[outcomes.len() - 1].wf());
        lemma_submit_all_or_nothing(mr, call_block_id(calls.last()), outcomes.last());
    }
}

/// Status is monotonic under one step: a row that reads `Verified` still
/// reads `Verified` after any submission outcome for any block is recorded.
pub proof fn lemma_verified_monotonic(
    m: Map<u64, RowModel>,
    id: u64,
    block_id: u64,
    outcome: SubmitOutcome,
)
    requires
        m.contains_key(id),
        m[id].status == BlockStatus::Verified,
    ensures
        store_after_submit(m, block_id, outcome).contains_key(id),
        store_after_submit(m, block_id, outcome)[id].status == BlockStatus::Verified,
{
}

/// Status is monotonic under whole batches: a row that reads `Verified`
/// still reads `Verified` after any batch is drained.
pub proof fn lemma_verified_monotonic_over_run(
    m: Map<u64, RowModel>,
    id: u64,
    calls: Seq<ContractCall>,
    outcomes: Seq<SubmitOutcome>,
)
    requires
        m.contains_key(id),
        m[id].status == BlockStatus::Verified,
        calls.len() == outcomes.len(),
    ensures
        store_after_run(m, calls, outcomes).contains_key(id),
        store_after_run(m, calls, outcomes)[id].status == BlockStatus::Verified,
    decreases calls.len(),
{
    if calls.len() > 0 {
        lemma_verified_monotonic_over_run(m, id, calls.drop_last(), outcomes.drop_last());
        lemma_verified_monotonic(
            store_after_run(m, calls.drop_last(), outcomes.drop_last()),
            id,
            call_block_id(calls.last()),
            outcomes.last(),
        );
    }
}

/// A sender that owns its signing identity and waits for confirmation depth.
pub struct VerifyingSender {
    /// The status table the outcomes are recorded in.
    pub store: StatusStore,
    /// The verifier contract's address.
    pub contract: EthAddress,
    /// The signing identity, resolved once at construction and immutable
    /// for the sender's lifetime.
    pub account: EthAddress,
    /// The confirmation depth applied uniformly to every submission.
    pub confirmations: u64,
    /// Whether transactions use the legacy encoding instead of the
    /// fee-market one.
    pub legacy_tx_encoding: bool,
}

impl VerifyingSender {
    pub open spec fn wf(&self) -> bool {
        &&& self.store.wf()
        &&& self.contract.wf()
        &&& self.account.wf()
    }

    /// Builds a sender from configuration and an already-connected store.
    /// The contract address must parse; the signing identity is the
    /// configured address where one is given, else the first account the
    /// node reported — with no account anywhere, construction fails and the
    /// sender never starts half-initialized.
    pub fn from_config_with_pool(
        config: &SenderConfig,
        node_accounts: &Vec<EthAddress>,
        store: StatusStore,
    ) -> (r: Result<Self, SetupError>)
        requires
            store.wf(),
            forall|i: int| 0 <= i < node_accounts@.len() ==> (#[trigger] node_accounts@[i]).wf(),
        ensures
            match r {
                Ok(s) => {
                    &&& s.wf()
                    &&& valid_address_text(config.contract_address@)
                    &&& s.contract.bytes@ == parsed_address(config.contract_address@)
                    &&& match config.account {
                        Some(a) => valid_address_text(a@) && s.account.bytes@ == parsed_address(a@),
                        None => node_accounts@.len() > 0 && s.account.bytes@
                            == node_accounts@[0].bytes@,
                    }
                    &&& s.store == store
                    &&& s.confirmations == config.confirmations
                    &&& s.legacy_tx_encoding == config.legacy_tx_encoding
                },
                Err(SetupError::BadContractAddress) => !valid_address_text(
                    config.contract_address@,
                ),
                Err(SetupError::BadAccountAddress) => {
                    &&& valid_address_text(config.contract_address@)
                    &&& config.account matches Some(a) && !valid_address_text(a@)
                },
                Err(SetupError::NoAccounts) => {
                    &&& valid_address_text(config.contract_address@)
                    &&& config.account is None
                    &&& node_accounts@.len() == 0
                },
            },
    {
        let contract = match parse_address(config.contract_address.as_slice()) {
            Some(a) => a,
            None => {
                return Err(SetupError::BadContractAddress);
            },
        };
        let account = match &config.account {
            Some(text) => match parse_address(text.as_slice()) {
                Some(a) => a,
                None => {
                    return Err(SetupError::BadAccountAddress);
                },
            },
            None => {
                if node_accounts.len() == 0 {
                    return Err(SetupError::NoAccounts);
                }
                EthAddress { bytes: copy_vec(&node_accounts[0].bytes) }
            },
        };
        Ok(VerifyingSender {
            store,
            contract,
            account,
            confirmations: config.confirmations,
            legacy_tx_encoding: config.legacy_tx_encoding,
        })
    }

    /// The chain call that submits a block through `submitBlock`: all four
    /// payload fields, signed by the resolved account, dispatched with this
    /// sender's confirmation depth awaited.
    pub fn submit_block_call(&self, args: &SubmitBlockArgs) -> (c: ChainCall)
        ensures
            c.method == ChainMethod::SubmitBlock,
            c.block_id == Some(args.block_id),
            c.public_inputs@ == args.public_inputs@,
            c.serialized_proof@ == args.serialized_proof@,
            c.public_data matches Some(d) && d@ == args.public_data@,
            c.from matches Some(a) && a.bytes@ == self.account.bytes@,
            c.confirmations == Some(self.confirmations),
            c.legacy_tx_encoding == self.legacy_tx_encoding,
    {
        ChainCall {
            method: ChainMethod::SubmitBlock,
            block_id: Some(args.block_id),
            public_inputs: copy_vec(&args.public_inputs),
            serialized_proof: copy_vec(&args.serialized_proof),
            public_data: Some(copy_vec(&args.public_data)),
            from: Some(EthAddress { bytes: copy_vec(&self.account.bytes) }),
            confirmations: Some(self.confirmations),
            legacy_tx_encoding: self.legacy_tx_encoding,
        }
    }

    /// The chain call that submits a block through `submitBlockLegacy`: as
    /// `submit_block_call`, but the method takes no public data.
    pub fn submit_block_legacy_call(&self, args: &SubmitBlockArgs) -> (c: ChainCall)
        ensures
            c.method == ChainMethod::SubmitBlockLegacy,
            c.block_id == Some(args.block_id),
            c.public_inputs@ == args.public_inputs@,
            c.serialized_proof@ == args.serialized_proof@,
            c.public_data is None,
            c.from matches Some(a) && a.bytes@ == self.account.bytes@,
            c.confirmations == Some(self.confirmations),
            c.legacy_tx_encoding == self.legacy_tx_encoding,
    {
        ChainCall {
            method: ChainMethod::SubmitBlockLegacy,
            block_id: Some(args.block_id),
            public_inputs: copy_vec(&args.public_inputs),
            serialized_proof: copy_vec(&args.serialized_proof),
            public_data: None,
            from: Some(EthAddress { bytes: copy_vec(&self.account.bytes) }),
            confirmations: Some(self.confirmations),
            legacy_tx_encoding: self.legacy_tx_encoding,
        }
    }

    /// The read-only pre-check call `verifySubmitting`: the same four
    /// payload fields, no signer, no confirmation wait. It borrows the
    /// sender immutably: no store row and no sender state can change.
    pub fn verify_submitting(&self, args: &SubmitBlockArgs) -> (c: ChainCall)
        ensures
            c.method == ChainMethod::VerifySubmitting,
            c.method.is_read_only(),
            c.block_id == Some(args.block_id),
            c.public_inputs@ == args.public_inputs@,
            c.serialized_proof@ == args.serialized_proof@,
            c.public_data matches Some(d) && d@ == args.public_data@,
            c.from is None,
            c.confirmations is None,
    {
        ChainCall {
            method: ChainMethod::VerifySubmitting,
            block_id: Some(args.block_id),
            public_inputs: copy_vec(&args.public_inputs),
            serialized_proof: copy_vec(&args.serialized_proof),
            public_data: Some(copy_vec(&args.public_data)),
            from: None,
            confirmations: None,
            legacy_tx_encoding: false,
        }
    }

    /// The read-only pre-check call `verifyBlock`: as `verify_submitting`,
    /// but the method takes no block identifier. It borrows the sender
    /// immutably: no store row and no sender state can change.
    pub fn verify_block(&self, args: &SubmitBlockArgs) -> (c: ChainCall)
        ensures
            c.method == ChainMethod::VerifyBlock,
            c.method.is_read_only(),
            c.block_id is None,
            c.public_inputs@ == args.public_inputs@,
            c.serialized_proof@ == args.serialized_proof@,
            c.public_data matches Some(d) && d@ == args.public_data@,
            c.from is None,
            c.confirmations is None,
    {
        ChainCall {
            method: ChainMethod::VerifyBlock,
            block_id: None,
            public_inputs: copy_vec(&args.public_inputs),
            serialized_proof: copy_vec(&args.serialized_proof),
            public_data: Some(copy_vec(&args.public_data)),
            from: None,
            confirmations: None,
            legacy_tx_encoding: false,
        }
    }

    /// Records what the gateway reported for a submission of `block_id`:
    /// on success the keyed row is set to `Verified` with the receipt's
    /// hash text, on failure nothing is written and the error is handed
    /// back for the runtime to log — exactly one per failed request.
    fn record_outcome(&mut self, block_id: u64, outcome: &SubmitOutcome) -> (r: Result<
        (),
        SubmitError,
    >)
        requires
            old(self).wf(),
            outcome.wf(),
        ensures
            final(self).wf(),
            final(self).store@ == store_after_submit(old(self).store@, block_id, *outcome),
            final(self).contract == old(self).contract,
            final(self).account == old(self).account,
            final(self).confirmations == old(self).confirmations,
            final(self).legacy_tx_encoding == old(self).legacy_tx_encoding,
            match r {
                Ok(_) => !(outcome is Failed),
                Err(e) => *outcome matches SubmitOutcome::Failed(k) && e == SubmitError::Gateway(k),
            },
    {
        match outcome {
            SubmitOutcome::Confirmed(h) => {
                let text = format_tx_hash(h);
                let _ = self.store.update_row(block_id, BlockStatus::Verified, text);
                Ok(())
            },
            SubmitOutcome::ConfirmedNoReceipt => {
                let _ = self.store.update_row(block_id, BlockStatus::Verified, Vec::new());
                Ok(())
            },
            SubmitOutcome::Failed(k) => Err(SubmitError::Gateway(*k)),
        }
    }

    /// One submission through `submitBlock`, as the worker performs it for
    /// a dequeued request: the runtime dispatches `submit_block_call(args)`
    /// and the outcome it observed is recorded here. On success the keyed
    /// row ends `Verified` with the hash text; on any failure the store is
    /// exactly as before — never a partial write.
    pub fn submit_block(&mut self, args: &SubmitBlockArgs, outcome: &SubmitOutcome) -> (r: Result<
        (),
        SubmitError,
    >)
        requires
            old(self).wf(),
            outcome.wf(),
        ensures
            final(self).wf(),
            final(self).store@ == store_after_submit(old(self).store@, args.block_id, *outcome),
            final(self).contract == old(self).contract,
            final(self).account == old(self).account,
            final(self).confirmations == old(self).confirmations,
            final(self).legacy_tx_encoding == old(self).legacy_tx_encoding,
            match r {
                Ok(_) => !(outcome is Failed),
                Err(e) => *outcome matches SubmitOutcome::Failed(k) && e == SubmitError::Gateway(k),
            },
    {
        self.record_outcome(args.block_id, outcome)
    }

    /// One submission through `submitBlockLegacy`: the same recording rule
    /// as `submit_block`, for the method without public data.
    pub fn submit_block_legacy(&mut self, args: &SubmitBlockArgs, outcome: &SubmitOutcome) -> (r:
        Result<(), SubmitError>)
        requires
            old(self).wf(),
            outcome.wf(),
        ensures
            final(self).wf(),
            final(self).store@ == store_after_submit(old(self).store@, args.block_id, *outcome),
            final(self).contract == old(self).contract,
            final(self).account == old(self).account,
            final(self).confirmations == old(self).confirmations,
            final(self).legacy_tx_encoding == old(self).legacy_tx_encoding,
            match r {
                Ok(_) => !(outcome is Failed),
                Err(e) => *outcome matches SubmitOutcome::Failed(k) && e == SubmitError::Gateway(k),
            },
    {
        self.record_outcome(args.block_id, outcome)
    }

    /// Dispatches one dequeued request by its kind.
    fn run_inner(&mut self, call: &ContractCall, outcome: &SubmitOutcome) -> (r: Result<
        (),
        SubmitError,
    >)
        requires
            old(self).wf(),
            outcome.wf(),
        ensures
            final(self).wf(),
            final(self).store@ == store_after_submit(
                old(self).store@,
                call_block_id(*call),
                *outcome,
            ),
            final(self).contract == old(self).contract,
            final(self).account == old(self).account,
            final(self).confirmations == old(self).confirmations,
            final(self).legacy_tx_encoding == old(self).legacy_tx_encoding,
            r is Err <==> outcome is Failed,
    {
        match call {
            ContractCall::SubmitBlock(args) => self.submit_block(args, outcome),
        }
    }

    /// Drains a batch of queued requests strictly in arrival order — the
    /// i-th request's submission is attempted and its outcome recorded
    /// before the (i+1)-th is taken up, as the chain nonce ordering
    /// demands. `outcomes[i]` is what the gateway reported for the i-th
    /// attempt. Returns the block identifiers attempted, in queue order; a
    /// failed request is logged by the runtime and the batch advances
    /// without retry.
    pub fn run(&mut self, calls: &Vec<ContractCall>, outcomes: &Vec<SubmitOutcome>) -> (attempts:
        Vec<u64>)
        requires
            old(self).wf(),
            calls@.len() == outcomes@.len(),
            forall|i: int| 0 <= i < outcomes@.len() ==> (#[trigger] outcomes@[i]).wf(),
        ensures
            final(self).wf(),
            attempts@.len() == calls@.len(),
            forall|i: int|
                0 <= i < calls@.len() ==> attempts@[i] == call_block_id(#[trigger] calls@[i]),
            final(self).store@ == store_after_run(old(self).store@, calls@, outcomes@),
            final(self).contract == old(self).contract,
            final(self).account == old(self).account,
            final(self).confirmations == old(self).confirmations,
            final(self).legacy_tx_encoding == old(self).legacy_tx_encoding,
    {
        let mut attempts: Vec<u64> = Vec::new();
        let n = calls.len();
        for i in 0..n
            invariant
                self.wf(),
                n == calls@.len(),
                calls@.len() == outcomes@.len(),
                forall|j: int| 0 <= j < outcomes@.len() ==> (#[trigger] outcomes@[j]).wf(),
                attempts@.len() == i as int,
                forall|j: int|
                    0 <= j < i ==> attempts@[j] == call_block_id(#[trigger] calls@[j]),
                self.store@ == store_after_run(
                    old(self).store@,
                    calls@.take(i as int),
                    outcomes@.take(i as int),
                ),
                self.contract == old(self).contract,
                self.account == old(self).account,
                self.confirmations == old(self).confirmations,
                self.legacy_tx_encoding == old(self).legacy_tx_encoding,
        {
            let block_id = match &calls[i] {
                ContractCall::SubmitBlock(args) => args.block_id,
            };
            attempts.push(block_id);
            let _ = self.run_inner(&calls[i], &outcomes[i]);
            proof {
                assert(calls@.take(i as int + 1).drop_last() =~= calls@.take(i as int));
                assert(outcomes@.take(i as int + 1).drop_last() =~= outcomes@.take(i as int));
                assert(calls@.take(i as int + 1).last() == calls@[i as int]);
                assert(outcomes@.take(i as int + 1).last() == outcomes@[i as int]);
            }
        }
        proof {
            assert(calls@.take(n as int) =~= calls@);
            assert(outcomes@.take(n as int) =~= outcomes@);
        }
        attempts
    }
}

} // verus!
