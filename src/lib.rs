//! A two-party escrow: a client locks funds for a provider, who submits proof
//! of the work; the funds then go to the provider, or back to the client if the
//! escrow is cancelled before any proof arrives.
//!
//! Each escrow record lives at an address derived from the triple
//! (client, provider, task hash); the same address is the authority over the
//! escrow's vault. Fund movements are handed out as transfer orders: the
//! caller carries them out and reports whether they went through, and only
//! then is the record changed.

mod address;
mod clock;
mod escrow;
mod lifecycle;
mod program;

pub use address::{
    derive_escrow_address, escrow_address, escrow_seeds, escrow_signer_seeds, ESCROW_SEED_TAG,
};
pub use clock::current_time;
pub use escrow::{transition, Escrow, EscrowError, EscrowStatus, Operation, MAX_SERVICE_ID_LEN};
pub use program::{
    cancel_escrow, initialize_escrow, plan_cancel, plan_initialize, plan_release, release_payment,
    submit_proof, CancelEscrow, EscrowEntry, EscrowProgram, InitializeEscrow, ReleasePayment,
    SubmitProof, TransferOrder,
};
