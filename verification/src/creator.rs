//! The escrow as its creator sees it.
//!
//! The creator funds the escrow on this ledger and names who may take the
//! funds against the secret. In this view the commitment is the `hash`, the
//! deadline the `lock_time`, a claim a release of the funds and a refund
//! their rescue.

use vstd::prelude::*;
use crate::commitment::sha256;
use crate::engine::{
    after_claim, after_create, after_refund, claim_result, create_result, refund_result, Engine,
    Host,
};
use crate::record::{
    Counterparty, CounterpartyModel, CreateRequest, EscrowRecord, EscrowState, HtlcError,
    Identity, RequestModel, Transfer,
};
use crate::store::lookup;

verus! {

/// One escrow in the creator's terms.
#[derive(Debug, PartialEq, Eq)]
pub struct CreatorHTLC {
    /// The commitment.
    pub hash: [u8; 32],
    /// The deadline.
    pub lock_time: u64,
    /// Who funded the escrow.
    pub creator: Identity,
    /// The contract of the token that is locked.
    pub token: Identity,
    /// How much is locked.
    pub amount: i128,
    /// The address on the other chain.
    pub evm_address: [u8; 20],
    /// Whether the funds have left custody, by claim or by refund.
    pub is_released: bool,
    /// The token on the other chain.
    pub dest_token: Vec<u8>,
    /// The amount on the other chain.
    pub dest_amount: u128,
}

impl CreatorHTLC {
    /// The creator's view of `record`.
    pub fn of(record: &EscrowRecord) -> (htlc: CreatorHTLC)
        ensures
            htlc.hash@ == record@.commitment,
            htlc.lock_time == record@.deadline,
            htlc.creator == record@.creator,
            htlc.token == record@.token,
            htlc.amount == record@.amount,
            htlc.evm_address@ == record@.counterparty.addr,
            htlc.is_released == (record@.state != EscrowState::Funded),
            htlc.dest_token@ == record@.counterparty.token,
            htlc.dest_amount == record@.counterparty.amount,
    {
        let hints = record.counterparty.clone();
        CreatorHTLC {
            hash: record.commitment,
            lock_time: record.deadline,
            creator: record.creator,
            token: record.token,
            amount: record.amount,
            evm_address: hints.addr,
            is_released: match record.state {
                EscrowState::Funded => false,
                _ => true,
            },
            dest_token: hints.token,
            dest_amount: hints.amount,
        }
    }
}

/// What the creator's constructor asks of the engine.
pub open spec fn creator_request(
    creator: Identity,
    beneficiary: Identity,
    hash: Seq<u8>,
    lock_time: u64,
    token: Identity,
    amount: i128,
    evm_address: Seq<u8>,
    dest_token: Seq<u8>,
    dest_amount: u128,
) -> RequestModel {
    RequestModel {
        creator,
        beneficiary,
        commitment: hash,
        lock_duration: lock_time,
        token,
        amount,
        counterparty: CounterpartyModel {
            addr: evm_address,
            token: dest_token,
            amount: dest_amount,
        },
    }
}

/// The creator's side of a swap: funds an escrow, and takes part in its
/// release or rescue.
pub struct CreatorHTLCContract;

impl CreatorHTLCContract {
    /// Opens the escrow: locks `amount` of `token` for `lock_time` seconds
    /// from `host.now` under `hash`, to be released to `beneficiary`.
    pub fn __constructor(
        engine: &mut Engine,
        host: &Host,
        creator: Identity,
        beneficiary: Identity,
        hash: [u8; 32],
        lock_time: u64,
        token: Identity,
        amount: i128,
        evm_address: [u8; 20],
        dest_token: Vec<u8>,
        dest_amount: u128,
    ) -> (result: Result<Transfer, HtlcError>)
        requires
            old(engine).wf(),
        ensures
            final(engine).wf(),
            result == create_result(
                old(engine)@,
                *host,
                creator_request(
                    creator,
                    beneficiary,
                    hash@,
                    lock_time,
                    token,
                    amount,
                    evm_address@,
                    dest_token@,
                    dest_amount,
                ),
            ),
            final(engine)@ == after_create(
                old(engine)@,
                *host,
                creator_request(
                    creator,
                    beneficiary,
                    hash@,
                    lock_time,
                    token,
                    amount,
                    evm_address@,
                    dest_token@,
                    dest_amount,
                ),
            ),
    {
        let request = CreateRequest {
            creator,
            beneficiary,
            commitment: hash,
            lock_duration: lock_time,
            token,
            amount,
            counterparty: Counterparty { addr: evm_address, token: dest_token, amount: dest_amount },
        };
        engine.create(host, request)
    }

    /// Releases the funds of the escrow `hash` to its beneficiary, against
    /// the secret `preimage` and before the lock time.
    pub fn release_funds(engine: &mut Engine, host: &Host, hash: [u8; 32], preimage: [u8; 32]) -> (result:
        Result<Transfer, HtlcError>)
        requires
            old(engine).wf(),
        ensures
            final(engine).wf(),
            result == claim_result(old(engine)@, *host, hash@, preimage@),
            final(engine)@ == after_claim(old(engine)@, *host, hash@, preimage@),
    {
        engine.claim(host, &hash, &preimage)
    }

    /// Rescues the funds of the escrow `hash` for its creator, once the lock
    /// time has come.
    pub fn rescue_funds(engine: &mut Engine, host: &Host, hash: [u8; 32]) -> (result: Result<
        Transfer,
        HtlcError,
    >)
        requires
            old(engine).wf(),
        ensures
            final(engine).wf(),
            result == refund_result(old(engine)@, *host, hash@),
            final(engine)@ == after_refund(old(engine)@, *host, hash@),
    {
        engine.refund(host, &hash)
    }

    /// The hash lock that the secret `preimage` opens.
    pub fn hash_preimage(preimage: [u8; 32]) -> (digest: [u8; 32])
        ensures
            digest@ == sha256(preimage@),
    {
        crate::commitment::hash(&preimage)
    }

    /// Reads the escrow `hash` in the creator's terms. Fails with `NotFound`
    /// where none was created.
    pub fn get(engine: &Engine, hash: [u8; 32]) -> (result: Result<CreatorHTLC, HtlcError>)
        requires
            engine.wf(),
        ensures
            match lookup(engine@.records, hash@) {
                None => result == Err::<CreatorHTLC, HtlcError>(HtlcError::NotFound),
                Some(record) => result matches Ok(htlc) && {
                    &&& htlc.hash@ == hash@
                    &&& htlc.lock_time == record.deadline
                    &&& htlc.creator == record.creator
                    &&& htlc.token == record.token
                    &&& htlc.amount == record.amount
                    &&& htlc.evm_address@ == record.counterparty.addr
                    &&& htlc.is_released == (record.state != EscrowState::Funded)
                    &&& htlc.dest_token@ == record.counterparty.token
                    &&& htlc.dest_amount == record.counterparty.amount
                },
            },
    {
        match engine.get(&hash) {
            Ok(record) => Ok(CreatorHTLC::of(record)),
            Err(fault) => Err(fault),
        }
    }
}

} // verus!
