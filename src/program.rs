use vstd::prelude::*;

use crate::address::{
    derivation, derive_escrow_address, escrow_address, escrow_seeds_spec, escrow_signer_seeds,
    lemma_derivation_rebuilds, program_address, seed_bytes, with_bump,
};
use crate::escrow::{
    label_len, transition, transition_spec, Escrow, EscrowError, EscrowStatus, Operation, MAX_SERVICE_ID_LEN,
};

verus! {

/// The accounts that creating an escrow involves. The client signs.
pub struct InitializeEscrow {
    pub client: [u8; 32],
    pub provider: [u8; 32],
    pub client_token_account: [u8; 32],
    pub escrow_token_account: [u8; 32],
}

/// The accounts that submitting proof involves. The provider signs.
pub struct SubmitProof {
    pub escrow: [u8; 32],
    pub provider: [u8; 32],
}

/// The accounts that releasing payment involves. The authority signs.
pub struct ReleasePayment {
    pub escrow: [u8; 32],
    pub escrow_token_account: [u8; 32],
    pub provider_token_account: [u8; 32],
    pub authority: [u8; 32],
}

/// The accounts that cancelling involves. The client signs.
pub struct CancelEscrow {
    pub escrow: [u8; 32],
    pub client: [u8; 32],
    pub escrow_token_account: [u8; 32],
    pub client_token_account: [u8; 32],
}

/// A movement of funds for the transfer service to carry out. Where
/// `signer_seeds` is not empty, the authority is the escrow's derived address
/// and those seeds, with the discriminator last, sign for it.
pub struct TransferOrder {
    pub from: [u8; 32],
    pub to: [u8; 32],
    pub authority: [u8; 32],
    pub signer_seeds: Vec<Vec<u8>>,
    pub amount: u64,
}

/// One escrow record, stored at its derived address.
pub struct EscrowEntry {
    pub address: [u8; 32],
    pub escrow: Escrow,
}

/// All escrows of one program, each stored at the address derived from its
/// triple under `program_id`.
pub struct EscrowProgram {
    pub program_id: [u8; 32],
    pub entries: Vec<EscrowEntry>,
}

/// The seeds of an escrow's address.
pub open spec fn seeds_of(e: Escrow) -> Seq<Seq<u8>> {
    escrow_seeds_spec(e.client@, e.provider@, e.task_hash@)
}

/// The entry stands at the address derived from its triple and recorded
/// discriminator.
pub open spec fn is_bound(program: Seq<u8>, e: EscrowEntry) -> bool {
    program_address(with_bump(seeds_of(e.escrow), e.escrow.bump), program) == Some(e.address@)
}

/// The record that creation writes.
pub open spec fn created_record(
    e: Escrow,
    ctx: InitializeEscrow,
    amount: u64,
    service_id: Seq<char>,
    task_hash: [u8; 32],
    now: i64,
    bump: u8,
) -> bool {
    &&& e.client == ctx.client
    &&& e.provider == ctx.provider
    &&& e.amount == amount
    &&& e.service_id@ == service_id
    &&& e.task_hash == task_hash
    &&& e.proof_hash is None
    &&& e.status is Pending
    &&& e.created_at == now
    &&& e.completed_at is None
    &&& e.released_at is None
    &&& e.bump == bump
}

/// The record once proof was submitted.
pub open spec fn with_proof(e: Escrow, proof_hash: [u8; 32], now: i64) -> Escrow {
    Escrow { proof_hash: Some(proof_hash), status: EscrowStatus::ProofSubmitted, completed_at: Some(now), ..e }
}

/// The record once payment was released.
pub open spec fn with_release(e: Escrow, now: i64) -> Escrow {
    Escrow { status: EscrowStatus::Completed, released_at: Some(now), ..e }
}

/// The record once cancelled.
pub open spec fn with_cancel(e: Escrow) -> Escrow {
    Escrow { status: EscrowStatus::Cancelled, ..e }
}

/// A payout of the entry's whole amount from `from` to `to`, with the
/// entry's address as authority and its seeds and discriminator signing.
pub open spec fn payout_order(o: TransferOrder, e: EscrowEntry, from: [u8; 32], to: [u8; 32]) -> bool {
    &&& o.from == from
    &&& o.to == to
    &&& o.authority == e.address
    &&& seed_bytes(o.signer_seeds@) == with_bump(seeds_of(e.escrow), e.escrow.bump)
    &&& o.amount == e.escrow.amount
}

/// The entry with its record replaced.
pub open spec fn entry_with(e: EscrowEntry, escrow: Escrow) -> EscrowEntry {
    EscrowEntry { escrow, ..e }
}

impl EscrowProgram {
    /// Addresses are unique, each entry is bound to its derived address, and
    /// each record is well formed.
    pub open spec fn wf(&self) -> bool {
        &&& forall|i: int, j: int|
            0 <= i < j < self.entries@.len() ==> #[trigger] self.entries@[i].address@
                != #[trigger] self.entries@[j].address@
        &&& forall|i: int|
            0 <= i < self.entries@.len() ==> #[trigger] self.entries@[i].escrow.wf() && is_bound(
                self.program_id@,
                self.entries@[i],
            )
    }

    /// The position of the entry stored at `address`, if any.
    pub open spec fn lookup(&self, address: Seq<u8>) -> Option<int> {
        if exists|i: int| 0 <= i < self.entries@.len() && #[trigger] self.entries@[i].address@ == address {
            Some(choose|i: int| 0 <= i < self.entries@.len() && #[trigger] self.entries@[i].address@ == address)
        } else {
            None
        }
    }

    /// Where creation stores the escrow and with which discriminator, or the
    /// error it fails with before any transfer.
    pub open spec fn initialize_check(
        &self,
        ctx: InitializeEscrow,
        service_id: Seq<char>,
        task_hash: [u8; 32],
    ) -> Result<(Seq<u8>, u8), EscrowError> {
        match derivation(self.program_id@, escrow_seeds_spec(ctx.client@, ctx.provider@, task_hash@)) {
            None => Err(EscrowError::NoViableAddress),
            Some((a, b)) => if self.lookup(a) is Some {
                Err(EscrowError::DuplicateEscrow)
            } else if label_len(service_id) > MAX_SERVICE_ID_LEN {
                Err(EscrowError::ServiceIdTooLong)
            } else {
                Ok((a, b))
            },
        }
    }

    /// `new` is `self` with one escrow created at `address`.
    pub open spec fn created(
        &self,
        new: Self,
        ctx: InitializeEscrow,
        amount: u64,
        service_id: Seq<char>,
        task_hash: [u8; 32],
        now: i64,
        address: Seq<u8>,
        bump: u8,
    ) -> bool {
        &&& new.program_id == self.program_id
        &&& new.entries@.len() == self.entries@.len() + 1
        &&& new.entries@.drop_last() == self.entries@
        &&& new.entries@.last().address@ == address
        &&& created_record(new.entries@.last().escrow, ctx, amount, service_id, task_hash, now, bump)
    }

    /// The position of the escrow that proof is submitted for, or the error.
    pub open spec fn submit_check(&self, ctx: SubmitProof) -> Result<int, EscrowError> {
        match self.lookup(ctx.escrow@) {
            None => Err(EscrowError::EscrowNotFound),
            Some(i) => if self.entries@[i].escrow.provider@ != ctx.provider@ {
                Err(EscrowError::Unauthorized)
            } else {
                match transition_spec(self.entries@[i].escrow.status, Operation::SubmitProof) {
                    Ok(_) => Ok(i),
                    Err(e) => Err(e),
                }
            },
        }
    }

    /// The position of the escrow that is released, or the error it fails
    /// with before any transfer. Any signer may release.
    pub open spec fn release_check(&self, ctx: ReleasePayment) -> Result<int, EscrowError> {
        match self.lookup(ctx.escrow@) {
            None => Err(EscrowError::EscrowNotFound),
            Some(i) => match transition_spec(self.entries@[i].escrow.status, Operation::Release) {
                Ok(_) => Ok(i),
                Err(e) => Err(e),
            },
        }
    }

    /// The position of the escrow that is cancelled, or the error it fails
    /// with before any transfer.
    pub open spec fn cancel_check(&self, ctx: CancelEscrow) -> Result<int, EscrowError> {
        match self.lookup(ctx.escrow@) {
            None => Err(EscrowError::EscrowNotFound),
            Some(i) => if self.entries@[i].escrow.client@ != ctx.client@ {
                Err(EscrowError::Unauthorized)
            } else {
                match transition_spec(self.entries@[i].escrow.status, Operation::Cancel) {
                    Ok(_) => Ok(i),
                    Err(e) => Err(e),
                }
            },
        }
    }

    /// A program with no escrow.
    pub fn new(program_id: [u8; 32]) -> (r: Self)
        ensures
            r.wf(),
            r.program_id == program_id,
            r.entries@.len() == 0,
    {
        EscrowProgram { program_id, entries: Vec::new() }
    }

    /// A program holding one stored record, as loaded from its address.
    /// Fails where the record is not well formed or does not stand at the
    /// address derived from its triple and discriminator.
    pub fn load(program_id: [u8; 32], address: [u8; 32], escrow: Escrow) -> (r: Result<Self, EscrowError>)
        ensures
            match r {
                Ok(p) => {
                    &&& p.wf()
                    &&& p.program_id == program_id
                    &&& p.entries@ == seq![EscrowEntry { address, escrow }]
                },
                Err(e) => {
                    &&& !(escrow.wf() && is_bound(program_id@, EscrowEntry { address, escrow }))
                    &&& e == (if escrow.wf() { EscrowError::EscrowNotFound } else { EscrowError::InvalidStatus })
                },
            },
    {
        if !record_is_consistent(&escrow) {
            return Err(EscrowError::InvalidStatus);
        }
        let bound = match escrow_address(&program_id, &escrow.client, &escrow.provider, &escrow.task_hash, escrow.bump) {
            Some(a) => same_key(&a, &address),
            None => false,
        };
        if !bound {
            return Err(EscrowError::EscrowNotFound);
        }
        let mut entries: Vec<EscrowEntry> = Vec::new();
        entries.push(EscrowEntry { address, escrow });
        let p = EscrowProgram { program_id, entries };
        assert(p.entries@ =~= seq![EscrowEntry { address, escrow }]);
        Ok(p)
    }

    /// Finds the entry stored at `address`.
    pub fn find(&self, address: &[u8; 32]) -> (r: Option<usize>)
        requires
            self.wf(),
        ensures
            match r {
                Some(i) => self.lookup(address@) == Some(i as int),
                None => self.lookup(address@) is None,
            },
    {
        let mut i: usize = 0;
        while i < self.entries.len()
            invariant
                self.wf(),
                i <= self.entries@.len(),
                forall|k: int| 0 <= k < i ==> #[trigger] self.entries@[k].address@ != address@,
            decreases self.entries@.len() - i,
        {
            if same_key(&self.entries[i].address, address) {
                let ghost w = choose|k: int|
                    0 <= k < self.entries@.len() && #[trigger] self.entries@[k].address@ == address@;
                assert(self.entries@[i as int].address@ == address@);
                assert(w == i) by {
                    if w < i {
                    } else if w > i {
                        assert(self.entries@[i as int].address@ != self.entries@[w].address@);
                    }
                }
                return Some(i);
            }
            i = i + 1;
        }
        None
    }

    /// The escrow stored at `address`, if any.
    pub fn escrow_at(&self, address: &[u8; 32]) -> (r: Option<&Escrow>)
        requires
            self.wf(),
        ensures
            match self.lookup(address@) {
                Some(i) => r == Some(&self.entries@[i].escrow),
                None => r is None,
            },
    {
        match self.find(address) {
            Some(i) => Some(&self.entries[i].escrow),
            None => None,
        }
    }
}

/// Decides where creation stores the escrow, before any transfer.
fn check_initialize(
    program: &EscrowProgram,
    ctx: &InitializeEscrow,
    service_id: &String,
    task_hash: &[u8; 32],
) -> (r: Result<([u8; 32], u8), EscrowError>)
    requires
        program.wf(),
    ensures
        match r {
            Ok((a, b)) => program.initialize_check(*ctx, service_id@, *task_hash) == Ok::<(Seq<u8>, u8), EscrowError>((a@, b)),
            Err(e) => program.initialize_check(*ctx, service_id@, *task_hash) == Err::<(Seq<u8>, u8), EscrowError>(e),
        },
{
    let (address, bump) = match derive_escrow_address(&program.program_id, &ctx.client, &ctx.provider, task_hash) {
        Some(found) => found,
        None => return Err(EscrowError::NoViableAddress),
    };
    if program.find(&address).is_some() {
        return Err(EscrowError::DuplicateEscrow);
    }
    if service_id.as_str().len() > MAX_SERVICE_ID_LEN {
        return Err(EscrowError::ServiceIdTooLong);
    }
    Ok((address, bump))
}

/// The deposit that creating an escrow needs: `amount` from the client's
/// account into the vault, on the client's signature. Fails, with the error
/// that creation would give, where creation is refused before any transfer.
pub fn plan_initialize(
    program: &EscrowProgram,
    ctx: &InitializeEscrow,
    amount: u64,
    service_id: &String,
    task_hash: &[u8; 32],
) -> (r: Result<TransferOrder, EscrowError>)
    requires
        program.wf(),
    ensures
        match program.initialize_check(*ctx, service_id@, *task_hash) {
            Err(e) => r == Err::<TransferOrder, EscrowError>(e),
            Ok(_) => r matches Ok(o) && {
                &&& o.from == ctx.client_token_account
                &&& o.to == ctx.escrow_token_account
                &&& o.authority == ctx.client
                &&& o.signer_seeds@.len() == 0
                &&& o.amount == amount
            },
        },
{
    match check_initialize(program, ctx, service_id, task_hash) {
        Err(e) => Err(e),
        Ok(_) => Ok(
            TransferOrder {
                from: ctx.client_token_account,
                to: ctx.escrow_token_account,
                authority: ctx.client,
                signer_seeds: Vec::new(),
                amount,
            },
        ),
    }
}

/// Creates the escrow of the triple (client, provider, task hash), once the
/// deposit of `plan_initialize` was made (`deposited`), and returns its
/// address. Fails and changes nothing where the check of creation fails or the
/// deposit did not go through.
pub fn initialize_escrow(
    program: &mut EscrowProgram,
    ctx: &InitializeEscrow,
    amount: u64,
    service_id: String,
    task_hash: [u8; 32],
    now: i64,
    deposited: bool,
) -> (r: Result<[u8; 32], EscrowError>)
    requires
        old(program).wf(),
    ensures
        final(program).wf(),
        match old(program).initialize_check(*ctx, service_id@, task_hash) {
            Err(e) => r == Err::<[u8; 32], EscrowError>(e) && *final(program) == *old(program),
            Ok((a, b)) => if deposited {
                r matches Ok(x) && x@ == a && old(program).created(
                    *final(program),
                    *ctx,
                    amount,
                    service_id@,
                    task_hash,
                    now,
                    a,
                    b,
                )
            } else {
                r == Err::<[u8; 32], EscrowError>(EscrowError::TransferFailure) && *final(program) == *old(
                    program,
                )
            },
        },
{
    let (address, bump) = match check_initialize(program, ctx, &service_id, &task_hash) {
        Ok(found) => found,
        Err(e) => return Err(e),
    };
    if !deposited {
        return Err(EscrowError::TransferFailure);
    }
    let ghost service = service_id@;
    let escrow = Escrow {
        client: ctx.client,
        provider: ctx.provider,
        amount,
        service_id,
        task_hash,
        proof_hash: None,
        status: EscrowStatus::Pending,
        created_at: now,
        completed_at: None,
        released_at: None,
        bump,
    };
    proof {
        lemma_derivation_rebuilds(program.program_id@, seeds_of(escrow));
    }
    program.entries.push(EscrowEntry { address, escrow });
    proof {
        let n = program.entries@.len() - 1;
        assert(program.entries@.drop_last() =~= old(program).entries@);
        assert forall|i: int| 0 <= i < n implies program.entries@[i] == old(program).entries@[i] by {}
        assert forall|i: int| 0 <= i < n implies #[trigger] program.entries@[i].address@ != address@ by {
            if program.entries@[i].address@ == address@ {
                assert(old(program).entries@[i].address@ == address@);
            }
        }
    }
    Ok(address)
}

/// Replacing one record by a well-formed record of the same triple and
/// discriminator keeps the program well formed.
proof fn lemma_replace_keeps_wf(p: EscrowProgram, q: EscrowProgram, i: int, escrow: Escrow)
    requires
        p.wf(),
        0 <= i < p.entries@.len(),
        escrow.wf(),
        seeds_of(escrow) == seeds_of(p.entries@[i].escrow),
        escrow.bump == p.entries@[i].escrow.bump,
        q.program_id == p.program_id,
        q.entries@ == p.entries@.update(i, entry_with(p.entries@[i], escrow)),
    ensures
        q.wf(),
{
    assert forall|k: int| 0 <= k < q.entries@.len() implies #[trigger] q.entries@[k].escrow.wf() && is_bound(
        q.program_id@,
        q.entries@[k],
    ) by {
        if k != i {
            assert(p.entries@[k].escrow.wf());
        } else {
            assert(p.entries@[i].escrow.wf());
        }
    }
    assert forall|a: int, b: int| 0 <= a < b < q.entries@.len() implies #[trigger] q.entries@[a].address@
        != #[trigger] q.entries@[b].address@ by {
        assert(p.entries@[a].address@ != p.entries@[b].address@);
    }
}

/// Records the proof of the provider of the escrow at `ctx.escrow`, which
/// must be pending. Fails and changes nothing where there is no such escrow,
/// the signer is not its provider, or it is not pending.
pub fn submit_proof(program: &mut EscrowProgram, ctx: &SubmitProof, proof_hash: [u8; 32], now: i64) -> (r: Result<(), EscrowError>)
    requires
        old(program).wf(),
    ensures
        final(program).wf(),
        match old(program).submit_check(*ctx) {
            Err(e) => r == Err::<(), EscrowError>(e) && *final(program) == *old(program),
            Ok(i) => r is Ok && final(program).program_id == old(program).program_id
                && final(program).entries@ == old(program).entries@.update(
                i,
                entry_with(old(program).entries@[i], with_proof(old(program).entries@[i].escrow, proof_hash, now)),
            ),
        },
{
    let i = match program.find(&ctx.escrow) {
        Some(i) => i,
        None => return Err(EscrowError::EscrowNotFound),
    };
    if !same_key(&program.entries[i].escrow.provider, &ctx.provider) {
        proof {
            assert(program.entries@[i as int].escrow.provider@ != ctx.provider@);
        }
        return Err(EscrowError::Unauthorized);
    }
    let status = match transition(program.entries[i].escrow.status, Operation::SubmitProof) {
        Ok(s) => s,
        Err(e) => return Err(e),
    };
    let entry = &mut program.entries[i];
    entry.escrow.proof_hash = Some(proof_hash);
    entry.escrow.status = status;
    entry.escrow.completed_at = Some(now);
    proof {
        assert(program.entries@ =~= old(program).entries@.update(
            i as int,
            entry_with(old(program).entries@[i as int], with_proof(old(program).entries@[i as int].escrow, proof_hash, now)),
        ));
        assert(old(program).entries@[i as int].escrow.wf());
        lemma_replace_keeps_wf(
            *old(program),
            *program,
            i as int,
            with_proof(old(program).entries@[i as int].escrow, proof_hash, now),
        );
    }
    Ok(())
}

/// The payout order for the record of entry `i`: the whole amount from the
/// vault to `to`, signed for by the escrow's address.
fn payout(program: &EscrowProgram, i: usize, from: [u8; 32], to: [u8; 32]) -> (o: TransferOrder)
    requires
        i < program.entries@.len(),
    ensures
        payout_order(o, program.entries@[i as int], from, to),
{
    let entry = &program.entries[i];
    TransferOrder {
        from,
        to,
        authority: entry.address,
        signer_seeds: escrow_signer_seeds(
            &entry.escrow.client,
            &entry.escrow.provider,
            &entry.escrow.task_hash,
            entry.escrow.bump,
        ),
        amount: entry.escrow.amount,
    }
}

/// The payout that releasing the escrow at `ctx.escrow` needs: its whole
/// amount from the vault to the provider's account, signed for by the
/// escrow's address. Fails, with the error that release would give, where
/// release is refused before any transfer.
pub fn plan_release(program: &EscrowProgram, ctx: &ReleasePayment) -> (r: Result<TransferOrder, EscrowError>)
    requires
        program.wf(),
    ensures
        match program.release_check(*ctx) {
            Err(e) => r == Err::<TransferOrder, EscrowError>(e),
            Ok(i) => r matches Ok(o) && payout_order(
                o,
                program.entries@[i],
                ctx.escrow_token_account,
                ctx.provider_token_account,
            ),
        },
{
    let i = match program.find(&ctx.escrow) {
        Some(i) => i,
        None => return Err(EscrowError::EscrowNotFound),
    };
    match transition(program.entries[i].escrow.status, Operation::Release) {
        Err(e) => Err(e),
        Ok(_) => Ok(payout(program, i, ctx.escrow_token_account, ctx.provider_token_account)),
    }
}

/// Completes the escrow at `ctx.escrow` once the payout of `plan_release`
/// was made (`paid`). Any signer may release. Fails and changes nothing where
/// there is no such escrow, no proof was submitted, or the payout did not go
/// through.
pub fn release_payment(program: &mut EscrowProgram, ctx: &ReleasePayment, now: i64, paid: bool) -> (r: Result<(), EscrowError>)
    requires
        old(program).wf(),
    ensures
        final(program).wf(),
        match old(program).release_check(*ctx) {
            Err(e) => r == Err::<(), EscrowError>(e) && *final(program) == *old(program),
            Ok(i) => if paid {
                r is Ok && final(program).program_id == old(program).program_id
                    && final(program).entries@ == old(program).entries@.update(
                    i,
                    entry_with(old(program).entries@[i], with_release(old(program).entries@[i].escrow, now)),
                )
            } else {
                r == Err::<(), EscrowError>(EscrowError::TransferFailure) && *final(program) == *old(program)
            },
        },
{
    let i = match program.find(&ctx.escrow) {
        Some(i) => i,
        None => return Err(EscrowError::EscrowNotFound),
    };
    let status = match transition(program.entries[i].escrow.status, Operation::Release) {
        Ok(s) => s,
        Err(e) => return Err(e),
    };
    if !paid {
        return Err(EscrowError::TransferFailure);
    }
    let entry = &mut program.entries[i];
    entry.escrow.status = status;
    entry.escrow.released_at = Some(now);
    proof {
        let e = old(program).entries@[i as int];
        assert(program.entries@ =~= old(program).entries@.update(i as int, entry_with(e, with_release(e.escrow, now))));
        assert(e.escrow.wf());
        lemma_replace_keeps_wf(*old(program), *program, i as int, with_release(e.escrow, now));
    }
    Ok(())
}

/// The refund that cancelling the escrow at `ctx.escrow` needs: its whole
/// amount from the vault back to the client's account, signed for by the
/// escrow's address. Fails, with the error that cancellation would give,
/// where cancellation is refused before any transfer.
pub fn plan_cancel(program: &EscrowProgram, ctx: &CancelEscrow) -> (r: Result<TransferOrder, EscrowError>)
    requires
        program.wf(),
    ensures
        match program.cancel_check(*ctx) {
            Err(e) => r == Err::<TransferOrder, EscrowError>(e),
            Ok(i) => r matches Ok(o) && payout_order(
                o,
                program.entries@[i],
                ctx.escrow_token_account,
                ctx.client_token_account,
            ),
        },
{
    let i = match program.find(&ctx.escrow) {
        Some(i) => i,
        None => return Err(EscrowError::EscrowNotFound),
    };
    if !same_key(&program.entries[i].escrow.client, &ctx.client) {
        return Err(EscrowError::Unauthorized);
    }
    match transition(program.entries[i].escrow.status, Operation::Cancel) {
        Err(e) => Err(e),
        Ok(_) => Ok(payout(program, i, ctx.escrow_token_account, ctx.client_token_account)),
    }
}

/// Cancels the escrow at `ctx.escrow` once the refund of `plan_cancel` was
/// made (`refunded`). Fails and changes nothing where there is no such
/// escrow, the signer is not its client, proof was already submitted or the
/// escrow is closed, or the refund did not go through.
pub fn cancel_escrow(program: &mut EscrowProgram, ctx: &CancelEscrow, refunded: bool) -> (r: Result<(), EscrowError>)
    requires
        old(program).wf(),
    ensures
        final(program).wf(),
        match old(program).cancel_check(*ctx) {
            Err(e) => r == Err::<(), EscrowError>(e) && *final(program) == *old(program),
            Ok(i) => if refunded {
                r is Ok && final(program).program_id == old(program).program_id
                    && final(program).entries@ == old(program).entries@.update(
                    i,
                    entry_with(old(program).entries@[i], with_cancel(old(program).entries@[i].escrow)),
                )
            } else {
                r == Err::<(), EscrowError>(EscrowError::TransferFailure) && *final(program) == *old(program)
            },
        },
{
    let i = match program.find(&ctx.escrow) {
        Some(i) => i,
        None => return Err(EscrowError::EscrowNotFound),
    };
    if !same_key(&program.entries[i].escrow.client, &ctx.client) {
        return Err(EscrowError::Unauthorized);
    }
    let status = match transition(program.entries[i].escrow.status, Operation::Cancel) {
        Ok(s) => s,
        Err(e) => return Err(e),
    };
    if !refunded {
        return Err(EscrowError::TransferFailure);
    }
    let entry = &mut program.entries[i];
    entry.escrow.status = status;
    proof {
        let e = old(program).entries@[i as int];
        assert(program.entries@ =~= old(program).entries@.update(i as int, entry_with(e, with_cancel(e.escrow))));
        assert(e.escrow.wf());
        lemma_replace_keeps_wf(*old(program), *program, i as int, with_cancel(e.escrow));
    }
    Ok(())
}

/// Whether the fields that the status fixes agree with it.
fn record_is_consistent(escrow: &Escrow) -> (r: bool)
    ensures
        r == escrow.wf(),
{
    let proved = match escrow.status {
        EscrowStatus::ProofSubmitted | EscrowStatus::Completed => true,
        _ => false,
    };
    let released = match escrow.status {
        EscrowStatus::Completed => true,
        _ => false,
    };
    escrow.proof_hash.is_some() == proved && escrow.completed_at.is_some() == proved
        && escrow.released_at.is_some() == released && escrow.service_id.as_str().len() <= MAX_SERVICE_ID_LEN
}

/// Compares two keys byte by byte.
fn same_key(a: &[u8; 32], b: &[u8; 32]) -> (r: bool)
    ensures
        r == (a@ == b@),
{
    let mut i: usize = 0;
    while i < 32
        invariant
            i <= 32,
            a@.len() == 32,
            b@.len() == 32,
            forall|k: int| 0 <= k < i ==> a@[k] == b@[k],
        decreases 32 - i,
    {
        if a[i] != b[i] {
            return false;
        }
        i = i + 1;
    }
    assert(a@ =~= b@);
    true
}

} // verus!
