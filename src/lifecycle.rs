use vstd::prelude::*;

use crate::address::{escrow_seeds_spec, lemma_derivation_rebuilds, program_address, with_bump};
use crate::escrow::{is_terminal, Escrow, EscrowError};
use crate::program::{
    created_record, entry_with, seeds_of, with_cancel, with_proof, with_release, CancelEscrow, EscrowProgram,
    InitializeEscrow, ReleasePayment, SubmitProof,
};

verus! {

/// In a well-formed program the entry at position `i` is the one found at its
/// address.
pub proof fn lemma_lookup_finds(p: EscrowProgram, i: int)
    requires
        p.wf(),
        0 <= i < p.entries@.len(),
    ensures
        p.lookup(p.entries@[i].address@) == Some(i),
{
    let a = p.entries@[i].address@;
    assert(p.entries@[i].address@ == a);
    let j = choose|j: int| 0 <= j < p.entries@.len() && #[trigger] p.entries@[j].address@ == a;
    if j < i {
        assert(p.entries@[j].address@ != p.entries@[i].address@);
    } else if i < j {
        assert(p.entries@[i].address@ != p.entries@[j].address@);
    }
}

/// Rebuilding the address of a newly created escrow from its recorded
/// discriminator gives the address it was created at, on every call.
pub proof fn lemma_creation_rederives(
    p: EscrowProgram,
    q: EscrowProgram,
    ctx: InitializeEscrow,
    amount: u64,
    service_id: Seq<char>,
    task_hash: [u8; 32],
    now: i64,
    address: Seq<u8>,
    bump: u8,
)
    requires
        p.initialize_check(ctx, service_id, task_hash) == Ok::<(Seq<u8>, u8), EscrowError>((address, bump)),
        p.created(q, ctx, amount, service_id, task_hash, now, address, bump),
    ensures
        program_address(
            with_bump(seeds_of(q.entries@.last().escrow), q.entries@.last().escrow.bump),
            q.program_id@,
        ) == Some(address),
{
    let e = q.entries@.last().escrow;
    assert(seeds_of(e) == escrow_seeds_spec(ctx.client@, ctx.provider@, task_hash@));
    lemma_derivation_rebuilds(p.program_id@, seeds_of(e));
}

/// Once an escrow was created for a triple, creating one again for the same
/// triple fails as a duplicate.
pub proof fn lemma_second_creation_is_duplicate(
    p: EscrowProgram,
    q: EscrowProgram,
    ctx: InitializeEscrow,
    amount: u64,
    service_id: Seq<char>,
    task_hash: [u8; 32],
    now: i64,
    address: Seq<u8>,
    bump: u8,
    again: InitializeEscrow,
    again_service_id: Seq<char>,
)
    requires
        p.initialize_check(ctx, service_id, task_hash) == Ok::<(Seq<u8>, u8), EscrowError>((address, bump)),
        p.created(q, ctx, amount, service_id, task_hash, now, address, bump),
        again.client == ctx.client,
        again.provider == ctx.provider,
    ensures
        q.initialize_check(again, again_service_id, task_hash) == Err::<(Seq<u8>, u8), EscrowError>(
            EscrowError::DuplicateEscrow,
        ),
{
    let last = q.entries@.len() - 1;
    assert(q.entries@[last].address@ == address);
}

/// Creating another escrow leaves every record that stood before as it was.
pub proof fn lemma_creation_keeps_records(
    p: EscrowProgram,
    q: EscrowProgram,
    ctx: InitializeEscrow,
    amount: u64,
    service_id: Seq<char>,
    task_hash: [u8; 32],
    now: i64,
    address: Seq<u8>,
    bump: u8,
    i: int,
)
    requires
        p.created(q, ctx, amount, service_id, task_hash, now, address, bump),
        0 <= i < p.entries@.len(),
    ensures
        q.entries@[i] == p.entries@[i],
{
    assert(q.entries@.drop_last()[i] == q.entries@[i]);
}

/// Payment cannot be released from a pending escrow: proof must come first.
pub proof fn lemma_release_needs_proof(p: EscrowProgram, ctx: ReleasePayment, i: int)
    requires
        p.wf(),
        0 <= i < p.entries@.len(),
        p.entries@[i].address@ == ctx.escrow@,
        p.entries@[i].escrow.status is Pending,
    ensures
        p.release_check(ctx) == Err::<int, EscrowError>(EscrowError::InvalidStatus),
{
    lemma_lookup_finds(p, i);
}

/// Once proof was submitted, the client cannot cancel.
pub proof fn lemma_no_cancel_after_proof(p: EscrowProgram, ctx: CancelEscrow, i: int)
    requires
        p.wf(),
        0 <= i < p.entries@.len(),
        p.entries@[i].address@ == ctx.escrow@,
        p.entries@[i].escrow.client@ == ctx.client@,
        p.entries@[i].escrow.status is ProofSubmitted,
    ensures
        p.cancel_check(ctx) == Err::<int, EscrowError>(EscrowError::CannotCancel),
{
    lemma_lookup_finds(p, i);
}

/// Only the stored provider can submit proof.
pub proof fn lemma_only_provider_submits(p: EscrowProgram, ctx: SubmitProof, i: int)
    requires
        p.wf(),
        0 <= i < p.entries@.len(),
        p.entries@[i].address@ == ctx.escrow@,
        p.entries@[i].escrow.provider@ != ctx.provider@,
    ensures
        p.submit_check(ctx) == Err::<int, EscrowError>(EscrowError::Unauthorized),
{
    lemma_lookup_finds(p, i);
}

/// Only the stored client can cancel.
pub proof fn lemma_only_client_cancels(p: EscrowProgram, ctx: CancelEscrow, i: int)
    requires
        p.wf(),
        0 <= i < p.entries@.len(),
        p.entries@[i].address@ == ctx.escrow@,
        p.entries@[i].escrow.client@ != ctx.client@,
    ensures
        p.cancel_check(ctx) == Err::<int, EscrowError>(EscrowError::Unauthorized),
{
    lemma_lookup_finds(p, i);
}

/// Once proof was submitted, submitting again fails as out of state, so the
/// proof is never set twice.
pub proof fn lemma_second_submission_fails(
    p: EscrowProgram,
    q: EscrowProgram,
    ctx: SubmitProof,
    proof_hash: [u8; 32],
    now: i64,
    again: SubmitProof,
)
    requires
        p.wf(),
        p.submit_check(ctx) is Ok,
        q.wf(),
        q.program_id == p.program_id,
        q.entries@ == p.entries@.update(
            p.submit_check(ctx)->Ok_0,
            entry_with(
                p.entries@[p.submit_check(ctx)->Ok_0],
                with_proof(p.entries@[p.submit_check(ctx)->Ok_0].escrow, proof_hash, now),
            ),
        ),
        again.escrow == ctx.escrow,
    ensures
        q.submit_check(again) is Err,
        q.submit_check(again) == Err::<int, EscrowError>(EscrowError::InvalidStatus) || q.submit_check(again)
            == Err::<int, EscrowError>(EscrowError::Unauthorized),
        again.provider == ctx.provider ==> q.submit_check(again) == Err::<int, EscrowError>(
            EscrowError::InvalidStatus,
        ),
{
    let i = p.submit_check(ctx)->Ok_0;
    lemma_lookup_finds(q, i);
}

/// A closed escrow takes no further operation, so its vault is drained once:
/// releasing, cancelling and submitting proof all fail on it, whoever signs.
pub proof fn lemma_closed_escrow_is_final(
    p: EscrowProgram,
    i: int,
    release: ReleasePayment,
    cancel: CancelEscrow,
    submit: SubmitProof,
)
    requires
        p.wf(),
        0 <= i < p.entries@.len(),
        is_terminal(p.entries@[i].escrow.status),
        release.escrow@ == p.entries@[i].address@,
        cancel.escrow@ == p.entries@[i].address@,
        submit.escrow@ == p.entries@[i].address@,
    ensures
        p.release_check(release) is Err,
        p.cancel_check(cancel) is Err,
        p.submit_check(submit) is Err,
        p.entries@[i].escrow.custody() == 0,
{
    lemma_lookup_finds(p, i);
}

/// Releasing moves the escrow from holding its whole amount to holding
/// nothing, and leaves the parties, amount, label and task as they were.
pub proof fn lemma_release_drains_vault(p: EscrowProgram, ctx: ReleasePayment, now: i64)
    requires
        p.wf(),
        p.release_check(ctx) is Ok,
    ensures
        ({
            let e = p.entries@[p.release_check(ctx)->Ok_0].escrow;
            let after = with_release(e, now);
            &&& e.custody() == e.amount
            &&& after.custody() == 0
            &&& after.client == e.client && after.provider == e.provider && after.amount == e.amount
            &&& after.service_id == e.service_id && after.task_hash == e.task_hash
            &&& after.proof_hash == e.proof_hash
        }),
{
}

/// Cancelling moves the escrow from holding its whole amount to holding
/// nothing, sets no proof or release time, and leaves the parties, amount,
/// label and task as they were.
pub proof fn lemma_cancel_drains_vault(p: EscrowProgram, ctx: CancelEscrow)
    requires
        p.wf(),
        p.cancel_check(ctx) is Ok,
    ensures
        ({
            let i = p.cancel_check(ctx)->Ok_0;
            let e = p.entries@[i].escrow;
            let after = with_cancel(e);
            &&& e.custody() == e.amount
            &&& after.custody() == 0
            &&& after.proof_hash is None && after.completed_at is None && after.released_at is None
            &&& after.client == e.client && after.provider == e.provider && after.amount == e.amount
            &&& after.service_id == e.service_id && after.task_hash == e.task_hash
        }),
{
    let i = p.cancel_check(ctx)->Ok_0;
    assert(p.entries@[i].escrow.wf());
}

/// Along the full path create, submit proof, release, with the clock never
/// running back, the record ends completed with the submitted proof, its
/// vault empty, and its times in order: created, then proof, then release.
pub proof fn lemma_full_path(
    e: Escrow,
    ctx: InitializeEscrow,
    amount: u64,
    service_id: Seq<char>,
    task_hash: [u8; 32],
    bump: u8,
    created: i64,
    proof_hash: [u8; 32],
    proved: i64,
    released: i64,
)
    requires
        created_record(e, ctx, amount, service_id, task_hash, created, bump),
        created <= proved <= released,
    ensures
        ({
            let done = with_release(with_proof(e, proof_hash, proved), released);
            &&& e.custody() == amount
            &&& done.status is Completed
            &&& done.proof_hash == Some(proof_hash)
            &&& done.custody() == 0
            &&& done.amount == amount
            &&& done.created_at <= done.completed_at->0 <= done.released_at->0
        }),
{
}

} // verus!
