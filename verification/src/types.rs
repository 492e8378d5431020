//! Plain data carried through the submission pipeline: request payloads,
//! the calls the senders address to the chain node, and the outcomes the
//! node reports back.

use vstd::prelude::*;

verus! {

/// Status of a block row in the store. This subsystem only ever moves a row
/// to `Verified`; the other states are set upstream and never written here.
#[derive(Clone, Copy, Debug, PartialEq, Eq, Structural)]
pub enum BlockStatus {
    Uncommitted,
    Committed,
    Verified,
}

/// A 256-bit field element, as four little-endian 64-bit limbs. Public
/// inputs of a block's validity proof are carried as these; the senders
/// never look inside one.
#[derive(Clone, Copy, Debug, PartialEq, Eq)]
pub struct FieldElement {
    pub limbs: [u64; 4],
}

/// A 20-byte chain account address.
#[derive(Clone, Debug)]
pub struct EthAddress {
    pub bytes: Vec<u8>,
}

impl EthAddress {
    /// An address is exactly twenty bytes.
    pub open spec fn wf(&self) -> bool {
        self.bytes@.len() == 20
    }
}

/// A 32-byte transaction hash, as reported in a transaction receipt.
#[derive(Clone, Debug)]
pub struct TxHash {
    pub bytes: Vec<u8>,
}

impl TxHash {
    /// A transaction hash is exactly thirty-two bytes.
    pub open spec fn wf(&self) -> bool {
        self.bytes@.len() == 32
    }
}

/// Payload of a block submission request: the block identifier, the proof's
/// public inputs, the opaque proof blob, and the public data that the
/// verifying contract method additionally takes.
#[derive(Clone, Debug)]
pub struct SubmitBlockArgs {
    pub block_id: u64,
    pub public_inputs: Vec<FieldElement>,
    pub serialized_proof: Vec<u8>,
    pub public_data: Vec<u8>,
}

/// A queued request, tagged by kind. Adding a new on-chain action means
/// adding a variant and a dispatch arm in the senders.
#[derive(Clone, Debug)]
pub enum ContractCall {
    SubmitBlock(SubmitBlockArgs),
}

/// The block identifier a request is about.
pub open spec fn call_block_id(c: ContractCall) -> u64 {
    match c {
        ContractCall::SubmitBlock(args) => args.block_id,
    }
}

/// The contract methods this subsystem addresses.
#[derive(Clone, Copy, Debug, PartialEq, Eq, Structural)]
pub enum ChainMethod {
    SubmitBlock,
    SubmitBlockLegacy,
    VerifySubmitting,
    VerifyBlock,
}

impl ChainMethod {
    /// Whether the method mutates no chain state.
    pub open spec fn is_read_only(&self) -> bool {
        match *self {
            ChainMethod::SubmitBlock => false,
            ChainMethod::SubmitBlockLegacy => false,
            ChainMethod::VerifySubmitting => true,
            ChainMethod::VerifyBlock => true,
        }
    }
}

/// One fully described call to the contract, ready for the embedding
/// runtime to encode and dispatch. `from` is the signing identity when the
/// sender owns one, and `None` where signing is delegated to the node's
/// default account. `confirmations` is the depth the dispatcher must await
/// before the call counts as done; `None` means no wait at all.
#[derive(Clone, Debug)]
pub struct ChainCall {
    pub method: ChainMethod,
    pub block_id: Option<u64>,
    pub public_inputs: Vec<FieldElement>,
    pub serialized_proof: Vec<u8>,
    pub public_data: Option<Vec<u8>>,
    pub from: Option<EthAddress>,
    pub confirmations: Option<u64>,
    pub legacy_tx_encoding: bool,
}

/// Why a dispatched call failed.
#[derive(Clone, Copy, Debug, PartialEq, Eq, Structural)]
pub enum FailureKind {
    Encoding,
    Network,
    Reverted,
    ConfirmationWait,
}

/// What the gateway reported for a state-mutating call dispatched with a
/// confirmation wait: a receipt with the transaction hash, a completed wait
/// that yielded no receipt, or a failure.
#[derive(Clone, Debug)]
pub enum SubmitOutcome {
    Confirmed(TxHash),
    ConfirmedNoReceipt,
    Failed(FailureKind),
}

impl SubmitOutcome {
    pub open spec fn wf(&self) -> bool {
        match *self {
            SubmitOutcome::Confirmed(h) => h.wf(),
            SubmitOutcome::ConfirmedNoReceipt => true,
            SubmitOutcome::Failed(_) => true,
        }
    }
}

/// What the gateway reported for a call dispatched without any confirmation
/// wait: accepted for broadcast, or failed. No receipt and no inclusion
/// depth is ever observed on this path.
#[derive(Clone, Copy, Debug, PartialEq, Eq, Structural)]
pub enum RelayOutcome {
    Accepted,
    Failed(FailureKind),
}

/// The error a failed submission step reports; the embedding runtime logs
/// one line per value and moves on to the next request.
#[derive(Clone, Copy, Debug, PartialEq, Eq, Structural)]
pub enum SubmitError {
    Gateway(FailureKind),
}

/// Why a sender could not be constructed.
#[derive(Clone, Copy, Debug, PartialEq, Eq, Structural)]
pub enum SetupError {
    BadContractAddress,
    BadAccountAddress,
    NoAccounts,
}

/// A fresh vector with the same elements.
pub(crate) fn copy_vec<T: Copy>(src: &Vec<T>) -> (r: Vec<T>)
    ensures
        r@ == src@,
{
    let mut r: Vec<T> = Vec::new();
    let n = src.len();
    for i in 0..n
        invariant
            n == src@.len(),
            r@ == src@.take(i as int),
    {
        r.push(src[i]);
        proof {
            assert(src@.take(i as int + 1) =~= src@.take(i as int).push(src@[i as int]));
        }
    }
    proof {
        assert(src@.take(n as int) =~= src@);
    }
    r
}

} // verus!
