use std::collections::HashMap;

use agent_escrow::{
    cancel_escrow, current_time, derive_escrow_address, escrow_address, escrow_seeds,
    escrow_signer_seeds, initialize_escrow, plan_cancel, plan_initialize, plan_release,
    release_payment, submit_proof, transition, CancelEscrow, Escrow, EscrowError, EscrowProgram,
    EscrowStatus, InitializeEscrow, Operation, ReleasePayment, SubmitProof, TransferOrder,
    ESCROW_SEED_TAG,
};

const PROGRAM: [u8; 32] = [7; 32];
const CLIENT: [u8; 32] = [1; 32];
const PROVIDER: [u8; 32] = [2; 32];
const CLIENT_TOKENS: [u8; 32] = [3; 32];
const PROVIDER_TOKENS: [u8; 32] = [4; 32];
const VAULT: [u8; 32] = [5; 32];
const STRANGER: [u8; 32] = [6; 32];

/// Token balances, moved the way the transfer service moves them.
struct Ledger {
    balances: HashMap<[u8; 32], u64>,
}

impl Ledger {
    fn new() -> Self {
        let mut balances = HashMap::new();
        balances.insert(CLIENT_TOKENS, 10_000);
        balances.insert(PROVIDER_TOKENS, 0);
        balances.insert(VAULT, 0);
        Ledger { balances }
    }

    fn balance(&self, key: &[u8; 32]) -> u64 {
        *self.balances.get(key).unwrap_or(&0)
    }

    fn apply(&mut self, order: &TransferOrder) -> bool {
        let from = self.balance(&order.from);
        if from < order.amount {
            return false;
        }
        self.balances.insert(order.from, from - order.amount);
        let to = self.balance(&order.to);
        self.balances.insert(order.to, to + order.amount);
        true
    }
}

fn open_ctx() -> InitializeEscrow {
    InitializeEscrow {
        client: CLIENT,
        provider: PROVIDER,
        client_token_account: CLIENT_TOKENS,
        escrow_token_account: VAULT,
    }
}

fn create(program: &mut EscrowProgram, ledger: &mut Ledger, amount: u64, task: [u8; 32], now: i64) -> Result<[u8; 32], EscrowError> {
    let ctx = open_ctx();
    let service = String::from("translation");
    let order = plan_initialize(program, &ctx, amount, &service, &task)?;
    let moved = ledger.apply(&order);
    initialize_escrow(program, &ctx, amount, service, task, now, moved)
}

fn submit(program: &mut EscrowProgram, escrow: [u8; 32], signer: [u8; 32], proof: [u8; 32], now: i64) -> Result<(), EscrowError> {
    submit_proof(program, &SubmitProof { escrow, provider: signer }, proof, now)
}

fn release(program: &mut EscrowProgram, ledger: &mut Ledger, escrow: [u8; 32], now: i64) -> Result<(), EscrowError> {
    let ctx = ReleasePayment {
        escrow,
        escrow_token_account: VAULT,
        provider_token_account: PROVIDER_TOKENS,
        authority: CLIENT,
    };
    let order = plan_release(program, &ctx)?;
    let moved = ledger.apply(&order);
    release_payment(program, &ctx, now, moved)
}

fn cancel(program: &mut EscrowProgram, ledger: &mut Ledger, escrow: [u8; 32], signer: [u8; 32]) -> Result<(), EscrowError> {
    let ctx = CancelEscrow {
        escrow,
        client: signer,
        escrow_token_account: VAULT,
        client_token_account: CLIENT_TOKENS,
    };
    let order = plan_cancel(program, &ctx)?;
    let moved = ledger.apply(&order);
    cancel_escrow(program, &ctx, moved)
}

fn status_of(program: &EscrowProgram, escrow: &[u8; 32]) -> EscrowStatus {
    program.escrow_at(escrow).unwrap().status
}

#[test]
fn happy_path_pays_provider() {
    let mut program = EscrowProgram::new(PROGRAM);
    let mut ledger = Ledger::new();
    let h = [11u8; 32];
    let p = [12u8; 32];
    let address = create(&mut program, &mut ledger, 1000, h, 100).unwrap();
    {
        let e = program.escrow_at(&address).unwrap();
        assert_eq!(e.status, EscrowStatus::Pending);
        assert_eq!(e.vault_balance(), 1000);
        assert_eq!(e.amount, 1000);
        assert_eq!(e.created_at, 100);
        assert_eq!(e.service_id, "translation");
        assert_eq!(e.task_hash, h);
        assert_eq!(e.client, CLIENT);
        assert_eq!(e.provider, PROVIDER);
        assert_eq!(e.proof_hash, None);
    }
    assert_eq!(ledger.balance(&VAULT), 1000);
    assert_eq!(ledger.balance(&CLIENT_TOKENS), 9000);

    submit(&mut program, address, PROVIDER, p, 200).unwrap();
    {
        let e = program.escrow_at(&address).unwrap();
        assert_eq!(e.proof_hash, Some(p));
        assert_eq!(e.status, EscrowStatus::ProofSubmitted);
        assert_eq!(e.completed_at, Some(200));
    }

    release(&mut program, &mut ledger, address, 300).unwrap();
    let e = program.escrow_at(&address).unwrap();
    assert_eq!(e.status, EscrowStatus::Completed);
    assert_eq!(e.vault_balance(), 0);
    assert_eq!(ledger.balance(&PROVIDER_TOKENS), 1000);
    assert_eq!(ledger.balance(&VAULT), 0);
    let released = e.released_at.unwrap();
    let completed = e.completed_at.unwrap();
    assert!(released >= completed && completed >= e.created_at);
}

#[test]
fn refund_path_returns_funds() {
    let mut program = EscrowProgram::new(PROGRAM);
    let mut ledger = Ledger::new();
    let address = create(&mut program, &mut ledger, 500, [21u8; 32], 10).unwrap();
    assert_eq!(ledger.balance(&CLIENT_TOKENS), 9500);
    cancel(&mut program, &mut ledger, address, CLIENT).unwrap();
    let e = program.escrow_at(&address).unwrap();
    assert_eq!(e.status, EscrowStatus::Cancelled);
    assert_eq!(e.vault_balance(), 0);
    assert_eq!(e.completed_at, None);
    assert_eq!(e.released_at, None);
    assert_eq!(e.proof_hash, None);
    assert_eq!(ledger.balance(&CLIENT_TOKENS), 10_000);
    assert_eq!(ledger.balance(&VAULT), 0);
}

#[test]
fn release_before_proof_fails() {
    let mut program = EscrowProgram::new(PROGRAM);
    let mut ledger = Ledger::new();
    let address = create(&mut program, &mut ledger, 300, [31u8; 32], 1).unwrap();
    assert_eq!(release(&mut program, &mut ledger, address, 2), Err(EscrowError::InvalidStatus));
    assert_eq!(status_of(&program, &address), EscrowStatus::Pending);
    assert_eq!(program.escrow_at(&address).unwrap().vault_balance(), 300);
    assert_eq!(ledger.balance(&VAULT), 300);
    assert_eq!(ledger.balance(&PROVIDER_TOKENS), 0);
}

#[test]
fn cancel_after_proof_fails() {
    let mut program = EscrowProgram::new(PROGRAM);
    let mut ledger = Ledger::new();
    let address = create(&mut program, &mut ledger, 400, [41u8; 32], 1).unwrap();
    submit(&mut program, address, PROVIDER, [42u8; 32], 2).unwrap();
    assert_eq!(cancel(&mut program, &mut ledger, address, CLIENT), Err(EscrowError::CannotCancel));
    assert_eq!(status_of(&program, &address), EscrowStatus::ProofSubmitted);
    assert_eq!(program.escrow_at(&address).unwrap().vault_balance(), 400);
    assert_eq!(ledger.balance(&VAULT), 400);
    assert_eq!(ledger.balance(&CLIENT_TOKENS), 9600);
}

#[test]
fn creating_twice_is_a_duplicate() {
    let mut program = EscrowProgram::new(PROGRAM);
    let mut ledger = Ledger::new();
    let h = [51u8; 32];
    create(&mut program, &mut ledger, 100, h, 1).unwrap();
    assert_eq!(create(&mut program, &mut ledger, 100, h, 2), Err(EscrowError::DuplicateEscrow));
    assert_eq!(ledger.balance(&VAULT), 100);
    assert_eq!(program.entries.len(), 1);
}

#[test]
fn another_task_gets_its_own_escrow() {
    let mut program = EscrowProgram::new(PROGRAM);
    let mut ledger = Ledger::new();
    let first = create(&mut program, &mut ledger, 100, [61u8; 32], 1).unwrap();
    let second = create(&mut program, &mut ledger, 200, [62u8; 32], 2).unwrap();
    assert_ne!(first, second);
    submit(&mut program, second, PROVIDER, [63u8; 32], 3).unwrap();
    assert_eq!(status_of(&program, &first), EscrowStatus::Pending);
    assert_eq!(status_of(&program, &second), EscrowStatus::ProofSubmitted);
    assert_eq!(program.escrow_at(&first).unwrap().amount, 100);
    assert_eq!(program.escrow_at(&second).unwrap().amount, 200);
}

#[test]
fn address_rederives_from_recorded_bump() {
    let mut program = EscrowProgram::new(PROGRAM);
    let mut ledger = Ledger::new();
    let h = [71u8; 32];
    let address = create(&mut program, &mut ledger, 5, h, 1).unwrap();
    let e = program.escrow_at(&address).unwrap();
    assert_eq!(escrow_address(&PROGRAM, &e.client, &e.provider, &e.task_hash, e.bump), Some(address));
    assert_eq!(escrow_address(&PROGRAM, &e.client, &e.provider, &e.task_hash, e.bump), Some(address));
    assert_eq!(derive_escrow_address(&PROGRAM, &CLIENT, &PROVIDER, &h), Some((address, e.bump)));
    assert!(e.bump >= 1);
}

#[test]
fn derived_address_matches_the_ledger() {
    let program = anchor_lang::prelude::Pubkey::new_from_array(PROGRAM);
    let h = [81u8; 32];
    let (expected, bump) = anchor_lang::prelude::Pubkey::find_program_address(
        &[b"escrow", &CLIENT, &PROVIDER, &h],
        &program,
    );
    assert_eq!(derive_escrow_address(&PROGRAM, &CLIENT, &PROVIDER, &h), Some((expected.to_bytes(), bump)));
    assert_ne!(expected.to_bytes(), PROGRAM);
    let other = derive_escrow_address(&PROGRAM, &CLIENT, &PROVIDER, &[82u8; 32]).unwrap();
    assert_ne!(other.0, expected.to_bytes());
}

#[test]
fn seeds_are_tag_and_triple() {
    let h = [91u8; 32];
    let seeds = escrow_seeds(&CLIENT, &PROVIDER, &h);
    assert_eq!(seeds, vec![b"escrow".to_vec(), CLIENT.to_vec(), PROVIDER.to_vec(), h.to_vec()]);
    assert_eq!(ESCROW_SEED_TAG.to_vec(), b"escrow".to_vec());
    let signer = escrow_signer_seeds(&CLIENT, &PROVIDER, &h, 254);
    assert_eq!(signer.len(), 5);
    assert_eq!(signer[4], vec![254u8]);
}

#[test]
fn stranger_cannot_submit_or_cancel() {
    let mut program = EscrowProgram::new(PROGRAM);
    let mut ledger = Ledger::new();
    let address = create(&mut program, &mut ledger, 700, [101u8; 32], 1).unwrap();
    assert_eq!(submit(&mut program, address, STRANGER, [102u8; 32], 2), Err(EscrowError::Unauthorized));
    assert_eq!(program.escrow_at(&address).unwrap().proof_hash, None);
    assert_eq!(status_of(&program, &address), EscrowStatus::Pending);
    assert_eq!(cancel(&mut program, &mut ledger, address, STRANGER), Err(EscrowError::Unauthorized));
    assert_eq!(status_of(&program, &address), EscrowStatus::Pending);
    assert_eq!(ledger.balance(&VAULT), 700);
    // The provider is no client either.
    assert_eq!(cancel(&mut program, &mut ledger, address, PROVIDER), Err(EscrowError::Unauthorized));
}

#[test]
fn second_submission_fails() {
    let mut program = EscrowProgram::new(PROGRAM);
    let mut ledger = Ledger::new();
    let address = create(&mut program, &mut ledger, 50, [111u8; 32], 1).unwrap();
    let first = [112u8; 32];
    submit(&mut program, address, PROVIDER, first, 2).unwrap();
    assert_eq!(submit(&mut program, address, PROVIDER, [113u8; 32], 3), Err(EscrowError::InvalidStatus));
    let e = program.escrow_at(&address).unwrap();
    assert_eq!(e.proof_hash, Some(first));
    assert_eq!(e.completed_at, Some(2));
}

#[test]
fn closed_escrow_takes_no_operation() {
    let mut program = EscrowProgram::new(PROGRAM);
    let mut ledger = Ledger::new();
    let address = create(&mut program, &mut ledger, 80, [121u8; 32], 1).unwrap();
    submit(&mut program, address, PROVIDER, [122u8; 32], 2).unwrap();
    release(&mut program, &mut ledger, address, 3).unwrap();
    assert_eq!(release(&mut program, &mut ledger, address, 4), Err(EscrowError::InvalidStatus));
    assert_eq!(cancel(&mut program, &mut ledger, address, CLIENT), Err(EscrowError::CannotCancel));
    assert_eq!(ledger.balance(&PROVIDER_TOKENS), 80);

    let other = create(&mut program, &mut ledger, 90, [123u8; 32], 5).unwrap();
    cancel(&mut program, &mut ledger, other, CLIENT).unwrap();
    assert_eq!(submit(&mut program, other, PROVIDER, [124u8; 32], 6), Err(EscrowError::InvalidStatus));
    assert_eq!(cancel(&mut program, &mut ledger, other, CLIENT), Err(EscrowError::CannotCancel));
    assert_eq!(release(&mut program, &mut ledger, other, 7), Err(EscrowError::InvalidStatus));
}

#[test]
fn failed_transfer_changes_nothing() {
    let mut program = EscrowProgram::new(PROGRAM);
    let ctx = open_ctx();
    let h = [131u8; 32];
    assert_eq!(
        initialize_escrow(&mut program, &ctx, 10, String::from("x"), h, 1, false),
        Err(EscrowError::TransferFailure)
    );
    assert_eq!(program.entries.len(), 0);

    let address = initialize_escrow(&mut program, &ctx, 10, String::from("x"), h, 1, true).unwrap();
    submit(&mut program, address, PROVIDER, [132u8; 32], 2).unwrap();
    let rel = ReleasePayment {
        escrow: address,
        escrow_token_account: VAULT,
        provider_token_account: PROVIDER_TOKENS,
        authority: STRANGER,
    };
    assert_eq!(release_payment(&mut program, &rel, 3, false), Err(EscrowError::TransferFailure));
    assert_eq!(status_of(&program, &address), EscrowStatus::ProofSubmitted);
    assert_eq!(program.escrow_at(&address).unwrap().released_at, None);
    // Any signer may release.
    assert_eq!(release_payment(&mut program, &rel, 3, true), Ok(()));

    let other = initialize_escrow(&mut program, &ctx, 10, String::from("y"), [133u8; 32], 4, true).unwrap();
    let can = CancelEscrow {
        escrow: other,
        client: CLIENT,
        escrow_token_account: VAULT,
        client_token_account: CLIENT_TOKENS,
    };
    assert_eq!(cancel_escrow(&mut program, &can, false), Err(EscrowError::TransferFailure));
    assert_eq!(status_of(&program, &other), EscrowStatus::Pending);
}

#[test]
fn overdrawn_client_cannot_open() {
    let mut program = EscrowProgram::new(PROGRAM);
    let mut ledger = Ledger::new();
    assert_eq!(create(&mut program, &mut ledger, 20_000, [141u8; 32], 1), Err(EscrowError::TransferFailure));
    assert_eq!(program.entries.len(), 0);
    assert_eq!(ledger.balance(&CLIENT_TOKENS), 10_000);
}

#[test]
fn plans_name_the_right_transfers() {
    let mut program = EscrowProgram::new(PROGRAM);
    let ctx = open_ctx();
    let service = String::from("audit");
    let h = [151u8; 32];
    let deposit = plan_initialize(&program, &ctx, 250, &service, &h).unwrap();
    assert_eq!((deposit.from, deposit.to, deposit.authority, deposit.amount), (CLIENT_TOKENS, VAULT, CLIENT, 250));
    assert!(deposit.signer_seeds.is_empty());
    let address = initialize_escrow(&mut program, &ctx, 250, service, h, 1, true).unwrap();
    let bump = program.escrow_at(&address).unwrap().bump;

    let can = CancelEscrow { escrow: address, client: CLIENT, escrow_token_account: VAULT, client_token_account: CLIENT_TOKENS };
    let refund = plan_cancel(&program, &can).unwrap();
    assert_eq!((refund.from, refund.to, refund.authority, refund.amount), (VAULT, CLIENT_TOKENS, address, 250));
    assert_eq!(refund.signer_seeds, escrow_signer_seeds(&CLIENT, &PROVIDER, &h, bump));

    submit(&mut program, address, PROVIDER, [152u8; 32], 2).unwrap();
    let rel = ReleasePayment { escrow: address, escrow_token_account: VAULT, provider_token_account: PROVIDER_TOKENS, authority: CLIENT };
    let payout = plan_release(&program, &rel).unwrap();
    assert_eq!((payout.from, payout.to, payout.authority, payout.amount), (VAULT, PROVIDER_TOKENS, address, 250));
    assert_eq!(payout.signer_seeds[4], vec![bump]);
}

#[test]
fn long_service_label_is_refused() {
    let mut program = EscrowProgram::new(PROGRAM);
    let ctx = open_ctx();
    let long = "a".repeat(65);
    assert_eq!(
        initialize_escrow(&mut program, &ctx, 1, long, [161u8; 32], 1, true),
        Err(EscrowError::ServiceIdTooLong)
    );
    let fits = "a".repeat(64);
    assert!(initialize_escrow(&mut program, &ctx, 1, fits, [161u8; 32], 1, true).is_ok());
    // Sixty-four bytes, not characters: 33 two-byte characters are too many.
    let wide = "é".repeat(33);
    assert_eq!(
        initialize_escrow(&mut program, &ctx, 1, wide, [162u8; 32], 1, true),
        Err(EscrowError::ServiceIdTooLong)
    );
}

#[test]
fn unknown_escrow_is_not_found() {
    let mut program = EscrowProgram::new(PROGRAM);
    let mut ledger = Ledger::new();
    assert_eq!(submit(&mut program, STRANGER, PROVIDER, [1u8; 32], 1), Err(EscrowError::EscrowNotFound));
    assert_eq!(release(&mut program, &mut ledger, STRANGER, 1), Err(EscrowError::EscrowNotFound));
    assert_eq!(cancel(&mut program, &mut ledger, STRANGER, CLIENT), Err(EscrowError::EscrowNotFound));
    assert!(program.escrow_at(&STRANGER).is_none());
}

#[test]
fn transition_table() {
    let (pending, proof_submitted, completed, cancelled) = (
        EscrowStatus::Pending,
        EscrowStatus::ProofSubmitted,
        EscrowStatus::Completed,
        EscrowStatus::Cancelled,
    );
    let all = [pending, proof_submitted, completed, cancelled];
    for s in all {
        let submit = transition(s, Operation::SubmitProof);
        let release = transition(s, Operation::Release);
        let cancel = transition(s, Operation::Cancel);
        assert_eq!(submit, if s == pending { Ok(proof_submitted) } else { Err(EscrowError::InvalidStatus) });
        assert_eq!(release, if s == proof_submitted { Ok(completed) } else { Err(EscrowError::InvalidStatus) });
        assert_eq!(cancel, if s == pending { Ok(cancelled) } else { Err(EscrowError::CannotCancel) });
    }
}

#[test]
fn clock_is_unavailable_off_ledger() {
    assert_eq!(current_time(), Err(EscrowError::ClockUnavailable));
}

#[test]
fn load_checks_binding_and_fields() {
    let mut program = EscrowProgram::new(PROGRAM);
    let mut ledger = Ledger::new();
    let h = [171u8; 32];
    let address = create(&mut program, &mut ledger, 60, h, 1).unwrap();
    let stored = program.entries.pop().unwrap().escrow;
    let bump = stored.bump;
    let loaded = EscrowProgram::load(PROGRAM, address, stored).unwrap();
    assert_eq!(loaded.entries.len(), 1);
    assert_eq!(loaded.escrow_at(&address).unwrap().amount, 60);

    let mut moved = loaded;
    let record = moved.entries.pop().unwrap().escrow;
    assert_eq!(EscrowProgram::load(PROGRAM, STRANGER, record).err(), Some(EscrowError::EscrowNotFound));

    let bad = Escrow {
        client: CLIENT,
        provider: PROVIDER,
        amount: 60,
        service_id: String::from("translation"),
        task_hash: h,
        proof_hash: Some([1u8; 32]),
        status: EscrowStatus::Pending,
        created_at: 1,
        completed_at: None,
        released_at: None,
        bump,
    };
    assert_eq!(EscrowProgram::load(PROGRAM, address, bad).err(), Some(EscrowError::InvalidStatus));
}
