use vstd::prelude::*;

verus! {

/// The longest service label, in bytes.
pub const MAX_SERVICE_ID_LEN: usize = 64;

/// The length of a service label in UTF-8 bytes, as a `usize`.
pub open spec fn label_len(label: Seq<char>) -> usize {
    vstd::utf8::encode_utf8(label).len() as usize
}

/// Where an escrow stands in its lifecycle.
#[derive(Clone, Copy, Debug, PartialEq, Eq, Structural)]
pub enum EscrowStatus {
    Pending,
    ProofSubmitted,
    Completed,
    Cancelled,
}

/// Why an operation was refused. A refused operation changes nothing.
#[derive(Clone, Copy, Debug, PartialEq, Eq, Structural)]
pub enum EscrowError {
    /// The escrow is not in the state the operation starts from.
    InvalidStatus,
    /// Cancellation after proof was submitted.
    CannotCancel,
    /// The signer is not the party the record names.
    Unauthorized,
    /// An escrow already stands at the derived address.
    DuplicateEscrow,
    /// The transfer of funds did not go through.
    TransferFailure,
    /// No escrow stands at the given address.
    EscrowNotFound,
    /// No discriminator yields an address for the triple.
    NoViableAddress,
    /// The service label is longer than the record holds.
    ServiceIdTooLong,
    /// The ledger's clock could not be read.
    ClockUnavailable,
}

/// The operations that move an existing escrow forward.
#[derive(Clone, Copy, Debug, PartialEq, Eq, Structural)]
pub enum Operation {
    SubmitProof,
    Release,
    Cancel,
}

/// The transition table: the state that an operation leads to from `status`,
/// or the error it fails with there.
pub open spec fn transition_spec(status: EscrowStatus, op: Operation) -> Result<EscrowStatus, EscrowError> {
    match op {
        Operation::SubmitProof => if status is Pending {
            Ok(EscrowStatus::ProofSubmitted)
        } else {
            Err(EscrowError::InvalidStatus)
        },
        Operation::Release => if status is ProofSubmitted {
            Ok(EscrowStatus::Completed)
        } else {
            Err(EscrowError::InvalidStatus)
        },
        Operation::Cancel => if status is Pending {
            Ok(EscrowStatus::Cancelled)
        } else {
            Err(EscrowError::CannotCancel)
        },
    }
}

/// A terminal state admits no further operation.
pub open spec fn is_terminal(status: EscrowStatus) -> bool {
    status is Completed || status is Cancelled
}

/// The position of a state along the lifecycle; every transition raises it.
pub open spec fn stage(status: EscrowStatus) -> nat {
    match status {
        EscrowStatus::Pending => 0,
        EscrowStatus::ProofSubmitted => 1,
        EscrowStatus::Completed => 2,
        EscrowStatus::Cancelled => 2,
    }
}

/// Looks up the transition table.
pub fn transition(status: EscrowStatus, op: Operation) -> (r: Result<EscrowStatus, EscrowError>)
    ensures
        r == transition_spec(status, op),
{
    match op {
        Operation::SubmitProof => match status {
            EscrowStatus::Pending => Ok(EscrowStatus::ProofSubmitted),
            _ => Err(EscrowError::InvalidStatus),
        },
        Operation::Release => match status {
            EscrowStatus::ProofSubmitted => Ok(EscrowStatus::Completed),
            _ => Err(EscrowError::InvalidStatus),
        },
        Operation::Cancel => match status {
            EscrowStatus::Pending => Ok(EscrowStatus::Cancelled),
            _ => Err(EscrowError::CannotCancel),
        },
    }
}

/// States only move forward: no transition leads back to where the escrow
/// was, or to an earlier state, and none leaves a terminal state.
pub proof fn lemma_transitions_move_forward(status: EscrowStatus, op: Operation)
    ensures
        transition_spec(status, op) matches Ok(next) ==> stage(status) < stage(next),
        is_terminal(status) ==> transition_spec(status, op) is Err,
{
}

/// The persisted state of one escrow.
#[derive(Debug)]
pub struct Escrow {
    pub client: [u8; 32],
    pub provider: [u8; 32],
    pub amount: u64,
    pub service_id: String,
    pub task_hash: [u8; 32],
    pub proof_hash: Option<[u8; 32]>,
    pub status: EscrowStatus,
    pub created_at: i64,
    pub completed_at: Option<i64>,
    pub released_at: Option<i64>,
    /// The discriminator that derivation found for the escrow's address.
    pub bump: u8,
}

impl Escrow {
    /// The fields that the status fixes: a proof and its time once proof
    /// was submitted, a release time once the funds went to the provider.
    pub open spec fn wf(&self) -> bool {
        &&& (self.proof_hash is Some <==> (self.status is ProofSubmitted || self.status is Completed))
        &&& (self.completed_at is Some <==> (self.status is ProofSubmitted || self.status is Completed))
        &&& (self.released_at is Some <==> self.status is Completed)
        &&& label_len(self.service_id@) <= MAX_SERVICE_ID_LEN
    }

    /// What the escrow's vault holds: the amount until a terminal state, then
    /// nothing.
    pub open spec fn custody(&self) -> nat {
        if is_terminal(self.status) {
            0
        } else {
            self.amount as nat
        }
    }

    /// What the escrow's vault holds.
    pub fn vault_balance(&self) -> (r: u64)
        ensures
            r == self.custody(),
    {
        match self.status {
            EscrowStatus::Completed | EscrowStatus::Cancelled => 0,
            _ => self.amount,
        }
    }
}

} // verus!
