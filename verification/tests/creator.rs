use htlc::creator::{CreatorHTLC, CreatorHTLCContract};
use htlc::engine::{Engine, Host};
use htlc::record::{HtlcError, Identity, IdentityKind};

fn contract(byte: u8) -> Identity {
    Identity { kind: IdentityKind::Contract, key: [byte; 32] }
}

fn account(byte: u8) -> Identity {
    Identity { kind: IdentityKind::Account, key: [byte; 32] }
}

fn at(now: u64) -> Host {
    Host { now, authorized: true, transfer_accepted: true }
}

#[test]
fn test_create_htlc() {
    let contract_addr = contract(0xc0);
    let mut engine = Engine::new(contract_addr);

    let hash = [1u8; 32];
    let lock_time = 100u64;
    let amount = 1000i128;

    CreatorHTLCContract::__constructor(
        &mut engine,
        &at(0),
        contract_addr,
        contract_addr,
        hash,
        lock_time,
        contract(0x70),
        amount,
        [0u8; 20],
        Vec::new(),
        0,
    )
    .unwrap();

    let htlc: CreatorHTLC = CreatorHTLCContract::get(&engine, hash).unwrap();
    assert_eq!(htlc.hash, hash);
    assert_eq!(htlc.lock_time, lock_time);
    assert_eq!(htlc.creator, contract_addr);
    assert_eq!(htlc.amount, amount);
    assert!(!htlc.is_released);
}

#[test]
fn test_lock_and_release_funds() {
    let contract_addr = contract(0xc0);
    let mut engine = Engine::new(contract_addr);

    let hash = [2u8; 32];
    let lock_time = 200u64;
    let amount = 2000i128;

    CreatorHTLCContract::__constructor(
        &mut engine,
        &at(0),
        contract_addr,
        contract_addr,
        hash,
        lock_time,
        contract(0x70),
        amount,
        [0u8; 20],
        Vec::new(),
        0,
    )
    .unwrap();

    // The funds are locked from the creation on.
    let htlc: CreatorHTLC = CreatorHTLCContract::get(&engine, hash).unwrap();
    assert!(!htlc.is_released);

    // Try to release funds with invalid preimage
    let invalid_preimage = [0u8; 32];
    let result = CreatorHTLCContract::release_funds(&mut engine, &at(1), hash, invalid_preimage);
    assert!(result.is_err());
    assert_eq!(result, Err(HtlcError::BadPreimage));
    assert!(!CreatorHTLCContract::get(&engine, hash).unwrap().is_released);
}

#[test]
fn creator_sees_the_whole_escrow() {
    let custody = contract(0xc0);
    let alice = account(0xa1);
    let bob = account(0xb0);
    let usd = contract(0x70);
    let secret = [0x42u8; 32];
    let hash = CreatorHTLCContract::hash_preimage(secret);
    let mut engine = Engine::new(custody);

    let deposit = CreatorHTLCContract::__constructor(
        &mut engine,
        &at(1_000_000),
        alice,
        bob,
        hash,
        3_600,
        usd,
        1_000,
        [0xee; 20],
        b"USDC".to_vec(),
        990,
    )
    .unwrap();
    assert_eq!(deposit.from, alice);
    assert_eq!(deposit.to, custody);
    assert_eq!(deposit.token, usd);
    assert_eq!(deposit.amount, 1_000);

    let htlc = CreatorHTLCContract::get(&engine, hash).unwrap();
    assert_eq!(
        htlc,
        CreatorHTLC {
            hash,
            lock_time: 1_003_600,
            creator: alice,
            token: usd,
            amount: 1_000,
            evm_address: [0xee; 20],
            is_released: false,
            dest_token: b"USDC".to_vec(),
            dest_amount: 990,
        }
    );
}

#[test]
fn release_pays_the_beneficiary() {
    let custody = contract(0xc0);
    let alice = account(0xa1);
    let bob = account(0xb0);
    let usd = contract(0x70);
    let secret = [0x42u8; 32];
    let hash = CreatorHTLCContract::hash_preimage(secret);
    let mut engine = Engine::new(custody);
    CreatorHTLCContract::__constructor(
        &mut engine,
        &at(1_000_000),
        alice,
        bob,
        hash,
        3_600,
        usd,
        1_000,
        [0xee; 20],
        Vec::new(),
        0,
    )
    .unwrap();

    let payout =
        CreatorHTLCContract::release_funds(&mut engine, &at(1_000_100), hash, secret).unwrap();
    assert_eq!(payout.from, custody);
    assert_eq!(payout.to, bob);
    assert_eq!(payout.amount, 1_000);
    assert!(CreatorHTLCContract::get(&engine, hash).unwrap().is_released);
    assert_eq!(
        CreatorHTLCContract::release_funds(&mut engine, &at(1_000_101), hash, secret),
        Err(HtlcError::AlreadyFinalized)
    );
}

#[test]
fn rescue_pays_the_creator_back() {
    let custody = contract(0xc0);
    let alice = account(0xa1);
    let bob = account(0xb0);
    let usd = contract(0x70);
    let hash = CreatorHTLCContract::hash_preimage([0x42u8; 32]);
    let mut engine = Engine::new(custody);
    CreatorHTLCContract::__constructor(
        &mut engine,
        &at(1_000_000),
        alice,
        bob,
        hash,
        3_600,
        usd,
        1_000,
        [0xee; 20],
        Vec::new(),
        0,
    )
    .unwrap();

    assert_eq!(
        CreatorHTLCContract::rescue_funds(&mut engine, &at(1_003_599), hash),
        Err(HtlcError::NotYetExpired)
    );
    let back = CreatorHTLCContract::rescue_funds(&mut engine, &at(1_003_600), hash).unwrap();
    assert_eq!(back.from, custody);
    assert_eq!(back.to, alice);
    assert_eq!(back.amount, 1_000);
    assert!(CreatorHTLCContract::get(&engine, hash).unwrap().is_released);
}

#[test]
fn creator_get_of_unknown_hash_is_not_found() {
    let engine = Engine::new(contract(0xc0));
    assert_eq!(CreatorHTLCContract::get(&engine, [5u8; 32]), Err(HtlcError::NotFound));
}
