use htlc::commitment::hash;
use htlc::engine::{Engine, Host};
use htlc::record::{
    Counterparty, CreateRequest, EscrowRecord, EscrowState, HtlcError, Identity, IdentityKind,
    Transfer,
};

const SECRET: [u8; 32] = [0x42; 32];

fn custody() -> Identity {
    Identity { kind: IdentityKind::Contract, key: [0xc0; 32] }
}

fn alice() -> Identity {
    Identity { kind: IdentityKind::Account, key: [0xa1; 32] }
}

fn bob() -> Identity {
    Identity { kind: IdentityKind::Account, key: [0xb0; 32] }
}

fn usd() -> Identity {
    Identity { kind: IdentityKind::Contract, key: [0x70; 32] }
}

fn eur() -> Identity {
    Identity { kind: IdentityKind::Contract, key: [0x71; 32] }
}

fn at(now: u64) -> Host {
    Host { now, authorized: true, transfer_accepted: true }
}

fn request(commitment: [u8; 32]) -> CreateRequest {
    CreateRequest {
        creator: alice(),
        beneficiary: bob(),
        commitment,
        lock_duration: 3_600,
        token: usd(),
        amount: 1_000,
        counterparty: Counterparty { addr: [0xee; 20], token: b"USDC".to_vec(), amount: 990 },
    }
}

fn funded() -> (Engine, [u8; 32]) {
    let commitment = hash(&SECRET);
    let mut engine = Engine::new(custody());
    engine.create(&at(1_000_000), request(commitment)).unwrap();
    (engine, commitment)
}

/// What the funded escrows of `engine` under `commitments` lock of `token`.
fn locked(engine: &Engine, commitments: &[[u8; 32]], token: Identity) -> i128 {
    let mut total = 0;
    for commitment in commitments {
        let record = engine.get(commitment).unwrap();
        if record.state == EscrowState::Funded && record.token == token {
            total += record.amount;
        }
    }
    total
}

#[test]
fn new_engine_is_empty() {
    let engine = Engine::new(custody());
    assert_eq!(engine.len(), 0);
    assert_eq!(engine.custody(), custody());
    assert_eq!(engine.get(&[0u8; 32]), Err(HtlcError::NotFound));
}

#[test]
fn create_writes_a_funded_record() {
    let (engine, commitment) = funded();
    assert_eq!(engine.len(), 1);
    assert_eq!(
        engine.get(&commitment).unwrap(),
        &EscrowRecord {
            commitment,
            creator: alice(),
            beneficiary: bob(),
            token: usd(),
            amount: 1_000,
            deadline: 1_003_600,
            counterparty: Counterparty { addr: [0xee; 20], token: b"USDC".to_vec(), amount: 990 },
            state: EscrowState::Funded,
        }
    );
}

#[test]
fn create_returns_the_deposit() {
    let mut engine = Engine::new(custody());
    let deposit = engine.create(&at(1_000_000), request(hash(&SECRET)));
    assert_eq!(
        deposit,
        Ok(Transfer { token: usd(), from: alice(), to: custody(), amount: 1_000 })
    );
}

#[test]
fn fresh_escrow_has_its_deadline_ahead() {
    let mut engine = Engine::new(custody());
    let mut asked = request([7u8; 32]);
    asked.lock_duration = 1;
    engine.create(&at(41), asked).unwrap();
    let record = engine.get(&[7u8; 32]).unwrap();
    assert_eq!(record.state, EscrowState::Funded);
    assert_eq!(record.deadline, 42);
    assert!(41 < record.deadline);
}

#[test]
fn create_without_authorization_is_unauthorized() {
    let mut engine = Engine::new(custody());
    let host = Host { now: 1_000_000, authorized: false, transfer_accepted: true };
    assert_eq!(engine.create(&host, request([1u8; 32])), Err(HtlcError::Unauthorized));
    assert_eq!(engine.len(), 0);
}

#[test]
fn unauthorized_comes_before_every_other_fault() {
    let (mut engine, commitment) = funded();
    let host = Host { now: u64::MAX, authorized: false, transfer_accepted: false };
    let mut asked = request(commitment);
    asked.amount = 0;
    asked.lock_duration = 0;
    assert_eq!(engine.create(&host, asked), Err(HtlcError::Unauthorized));
}

#[test]
fn create_with_zero_amount_is_invalid_amount() {
    let mut engine = Engine::new(custody());
    let mut asked = request([1u8; 32]);
    asked.amount = 0;
    assert_eq!(engine.create(&at(1_000_000), asked), Err(HtlcError::InvalidAmount));
    assert_eq!(engine.len(), 0);
}

#[test]
fn create_with_negative_amount_is_invalid_amount() {
    let mut engine = Engine::new(custody());
    let mut asked = request([1u8; 32]);
    asked.amount = -1;
    assert_eq!(engine.create(&at(1_000_000), asked), Err(HtlcError::InvalidAmount));
    let mut least = request([1u8; 32]);
    least.amount = i128::MIN;
    assert_eq!(engine.create(&at(1_000_000), least), Err(HtlcError::InvalidAmount));
}

#[test]
fn invalid_amount_comes_before_invalid_deadline() {
    let mut engine = Engine::new(custody());
    let mut asked = request([1u8; 32]);
    asked.amount = 0;
    asked.lock_duration = 0;
    assert_eq!(engine.create(&at(1_000_000), asked), Err(HtlcError::InvalidAmount));
}

#[test]
fn create_with_zero_lock_is_invalid_deadline() {
    let mut engine = Engine::new(custody());
    let mut asked = request([1u8; 32]);
    asked.lock_duration = 0;
    assert_eq!(engine.create(&at(1_000_000), asked), Err(HtlcError::InvalidDeadline));
    assert_eq!(engine.len(), 0);
}

#[test]
fn zero_lock_comes_before_already_exists() {
    let (mut engine, commitment) = funded();
    let mut asked = request(commitment);
    asked.lock_duration = 0;
    assert_eq!(engine.create(&at(1_000_000), asked), Err(HtlcError::InvalidDeadline));
}

#[test]
fn create_past_the_end_of_the_clock_is_invalid_deadline() {
    let mut engine = Engine::new(custody());
    let mut asked = request([1u8; 32]);
    asked.lock_duration = 2;
    assert_eq!(engine.create(&at(u64::MAX - 1), asked), Err(HtlcError::InvalidDeadline));
    assert_eq!(engine.len(), 0);
}

#[test]
fn create_up_to_the_end_of_the_clock_is_accepted() {
    let mut engine = Engine::new(custody());
    let mut asked = request([1u8; 32]);
    asked.lock_duration = 1;
    assert!(engine.create(&at(u64::MAX - 1), asked).is_ok());
    assert_eq!(engine.get(&[1u8; 32]).unwrap().deadline, u64::MAX);
}

#[test]
fn already_exists_comes_before_the_end_of_the_clock() {
    let (mut engine, commitment) = funded();
    let mut asked = request(commitment);
    asked.lock_duration = u64::MAX;
    assert_eq!(engine.create(&at(1_000_000), asked), Err(HtlcError::AlreadyExists));
}

#[test]
fn create_with_a_known_commitment_is_already_exists() {
    let (mut engine, commitment) = funded();
    assert_eq!(engine.create(&at(1_000_001), request(commitment)), Err(HtlcError::AlreadyExists));
    assert_eq!(engine.len(), 1);
}

#[test]
fn settled_commitment_cannot_be_used_again() {
    let (mut engine, commitment) = funded();
    engine.claim(&at(1_000_100), &commitment, &SECRET).unwrap();
    assert_eq!(engine.create(&at(1_000_200), request(commitment)), Err(HtlcError::AlreadyExists));
    assert_eq!(engine.get(&commitment).unwrap().state, EscrowState::Claimed);
}

#[test]
fn create_fails_when_the_token_contract_refuses() {
    let mut engine = Engine::new(custody());
    let host = Host { now: 1_000_000, authorized: true, transfer_accepted: false };
    assert_eq!(engine.create(&host, request([1u8; 32])), Err(HtlcError::TokenTransferFailed));
    assert_eq!(engine.len(), 0);
    assert_eq!(engine.get(&[1u8; 32]), Err(HtlcError::NotFound));
}

#[test]
fn claim_of_unknown_commitment_is_not_found() {
    let (mut engine, _) = funded();
    assert_eq!(engine.claim(&at(1_000_100), &[9u8; 32], &SECRET), Err(HtlcError::NotFound));
}

#[test]
fn refund_of_unknown_commitment_is_not_found() {
    let (mut engine, _) = funded();
    assert_eq!(engine.refund(&at(1_004_000), &[9u8; 32]), Err(HtlcError::NotFound));
}

#[test]
fn claim_returns_the_payout() {
    let (mut engine, commitment) = funded();
    assert_eq!(
        engine.claim(&at(1_000_100), &commitment, &SECRET),
        Ok(Transfer { token: usd(), from: custody(), to: bob(), amount: 1_000 })
    );
}

#[test]
fn refund_returns_the_restitution() {
    let (mut engine, commitment) = funded();
    assert_eq!(
        engine.refund(&at(1_003_600), &commitment),
        Ok(Transfer { token: usd(), from: custody(), to: alice(), amount: 1_000 })
    );
}

#[test]
fn claim_changes_only_the_state() {
    let (mut engine, commitment) = funded();
    let mut expected = engine.get(&commitment).unwrap().clone();
    engine.claim(&at(1_000_100), &commitment, &SECRET).unwrap();
    expected.state = EscrowState::Claimed;
    assert_eq!(engine.get(&commitment).unwrap(), &expected);
}

#[test]
fn refund_changes_only_the_state() {
    let (mut engine, commitment) = funded();
    let mut expected = engine.get(&commitment).unwrap().clone();
    engine.refund(&at(1_003_600), &commitment).unwrap();
    expected.state = EscrowState::Refunded;
    assert_eq!(engine.get(&commitment).unwrap(), &expected);
}

#[test]
fn one_second_before_the_deadline_claim_yes_refund_no() {
    let (mut engine, commitment) = funded();
    assert_eq!(engine.refund(&at(1_003_599), &commitment), Err(HtlcError::NotYetExpired));
    assert!(engine.claim(&at(1_003_599), &commitment, &SECRET).is_ok());
}

#[test]
fn at_the_deadline_claim_no_refund_yes() {
    let (mut engine, commitment) = funded();
    assert_eq!(engine.claim(&at(1_003_600), &commitment, &SECRET), Err(HtlcError::Expired));
    assert!(engine.refund(&at(1_003_600), &commitment).is_ok());
}

#[test]
fn expired_comes_before_bad_preimage() {
    let (mut engine, commitment) = funded();
    assert_eq!(engine.claim(&at(1_003_600), &commitment, &[0u8; 32]), Err(HtlcError::Expired));
}

#[test]
fn claim_with_the_commitment_as_preimage_is_bad_preimage() {
    let (mut engine, commitment) = funded();
    assert_eq!(
        engine.claim(&at(1_000_100), &commitment, &commitment),
        Err(HtlcError::BadPreimage)
    );
    assert_eq!(engine.get(&commitment).unwrap().state, EscrowState::Funded);
}

#[test]
fn claim_fails_when_the_token_contract_refuses() {
    let (mut engine, commitment) = funded();
    let host = Host { now: 1_000_100, authorized: true, transfer_accepted: false };
    assert_eq!(engine.claim(&host, &commitment, &SECRET), Err(HtlcError::TokenTransferFailed));
    assert_eq!(engine.get(&commitment).unwrap().state, EscrowState::Funded);
    assert!(engine.claim(&at(1_000_101), &commitment, &SECRET).is_ok());
}

#[test]
fn refund_fails_when_the_token_contract_refuses() {
    let (mut engine, commitment) = funded();
    let host = Host { now: 1_004_000, authorized: true, transfer_accepted: false };
    assert_eq!(engine.refund(&host, &commitment), Err(HtlcError::TokenTransferFailed));
    assert_eq!(engine.get(&commitment).unwrap().state, EscrowState::Funded);
    assert!(engine.refund(&at(1_004_001), &commitment).is_ok());
}

#[test]
fn bad_preimage_comes_before_the_token_contract() {
    let (mut engine, commitment) = funded();
    let host = Host { now: 1_000_100, authorized: true, transfer_accepted: false };
    assert_eq!(engine.claim(&host, &commitment, &[0u8; 32]), Err(HtlcError::BadPreimage));
}

#[test]
fn claim_and_refund_ask_for_no_authorization() {
    let (mut engine, commitment) = funded();
    let anyone = Host { now: 1_000_100, authorized: false, transfer_accepted: true };
    assert!(engine.claim(&anyone, &commitment, &SECRET).is_ok());

    let mut other = Engine::new(custody());
    other.create(&at(1_000_000), request(commitment)).unwrap();
    let later = Host { now: 1_003_600, authorized: false, transfer_accepted: true };
    assert!(other.refund(&later, &commitment).is_ok());
}

#[test]
fn claimed_escrow_refuses_claim_and_refund() {
    let (mut engine, commitment) = funded();
    engine.claim(&at(1_000_100), &commitment, &SECRET).unwrap();
    let record = engine.get(&commitment).unwrap().clone();

    assert_eq!(
        engine.claim(&at(1_000_200), &commitment, &SECRET),
        Err(HtlcError::AlreadyFinalized)
    );
    assert_eq!(engine.refund(&at(1_004_000), &commitment), Err(HtlcError::AlreadyFinalized));
    assert_eq!(
        engine.claim(&at(1_004_000), &commitment, &[0u8; 32]),
        Err(HtlcError::AlreadyFinalized)
    );
    assert_eq!(engine.get(&commitment).unwrap(), &record);
    assert_eq!(engine.len(), 1);
}

#[test]
fn refunded_escrow_refuses_claim_and_refund() {
    let (mut engine, commitment) = funded();
    engine.refund(&at(1_004_000), &commitment).unwrap();
    let record = engine.get(&commitment).unwrap().clone();

    assert_eq!(
        engine.claim(&at(1_000_200), &commitment, &SECRET),
        Err(HtlcError::AlreadyFinalized)
    );
    assert_eq!(engine.refund(&at(1_004_001), &commitment), Err(HtlcError::AlreadyFinalized));
    assert_eq!(engine.get(&commitment).unwrap(), &record);
}

#[test]
fn each_escrow_is_settled_at_most_once() {
    let (mut engine, commitment) = funded();
    let mut settled = 0;
    for now in [999_999u64, 1_000_100, 1_000_200, 1_003_599, 1_003_600, 1_003_601, 2_000_000] {
        if engine.claim(&at(now), &commitment, &SECRET).is_ok() {
            settled += 1;
        }
        if engine.refund(&at(now), &commitment).is_ok() {
            settled += 1;
        }
    }
    assert_eq!(settled, 1);
}

#[test]
fn escrows_do_not_disturb_each_other() {
    let first_secret = [1u8; 32];
    let second_secret = [2u8; 32];
    let first = hash(&first_secret);
    let second = hash(&second_secret);
    let mut engine = Engine::new(custody());
    engine.create(&at(100), request(first)).unwrap();
    let mut asked = request(second);
    asked.amount = 250;
    asked.lock_duration = 10;
    engine.create(&at(200), asked).unwrap();
    assert_eq!(engine.len(), 2);

    assert_eq!(engine.claim(&at(205), &second, &first_secret), Err(HtlcError::BadPreimage));
    let payout = engine.claim(&at(205), &second, &second_secret).unwrap();
    assert_eq!(payout.amount, 250);
    assert_eq!(engine.get(&first).unwrap().state, EscrowState::Funded);
    assert_eq!(engine.get(&first).unwrap().deadline, 3_700);
    assert_eq!(engine.get(&second).unwrap().state, EscrowState::Claimed);

    let back = engine.refund(&at(3_700), &first).unwrap();
    assert_eq!(back.amount, 1_000);
    assert_eq!(engine.get(&second).unwrap().state, EscrowState::Claimed);
}

#[test]
fn custody_equals_what_funded_escrows_lock() {
    let secrets = [[1u8; 32], [2u8; 32], [3u8; 32]];
    let commitments = [hash(&secrets[0]), hash(&secrets[1]), hash(&secrets[2])];
    let mut engine = Engine::new(custody());
    let mut held_usd: i128 = 0;
    let mut held_eur: i128 = 0;
    let mut book = |transfer: Transfer| {
        let held = if transfer.token == usd() { &mut held_usd } else { &mut held_eur };
        if transfer.to == custody() {
            *held += transfer.amount;
        }
        if transfer.from == custody() {
            *held -= transfer.amount;
        }
    };

    let mut first = request(commitments[0]);
    first.amount = 100;
    book(engine.create(&at(10), first).unwrap());
    let mut second = request(commitments[1]);
    second.amount = 20;
    second.token = eur();
    book(engine.create(&at(10), second).unwrap());
    let mut third = request(commitments[2]);
    third.amount = 3;
    book(engine.create(&at(10), third).unwrap());
    book(engine.claim(&at(20), &commitments[0], &secrets[0]).unwrap());
    assert!(engine.claim(&at(20), &commitments[1], &secrets[0]).is_err());
    book(engine.refund(&at(4_000), &commitments[1]).unwrap());
    assert!(engine.refund(&at(4_000), &commitments[1]).is_err());

    assert_eq!(held_usd, 3);
    assert_eq!(held_eur, 0);
    assert_eq!(held_usd, locked(&engine, &commitments, usd()));
    assert_eq!(held_eur, locked(&engine, &commitments, eur()));
}
