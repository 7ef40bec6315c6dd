//! The escrow as its taker sees it.
//!
//! The taker is the beneficiary: the one who receives the funds on this
//! ledger by revealing the secret. In this view the commitment is the
//! `hashlock` and the deadline the `timelock`.

use vstd::prelude::*;
use crate::commitment::{opens, sha256};
use crate::engine::{
    after_claim, after_create, after_refund, claim_result, create_result, refund_result, Engine,
    Host,
};
use crate::record::{
    Counterparty, CounterpartyModel, CreateRequest, EscrowRecord, EscrowState, HtlcError,
    Identity, RequestModel, Transfer,
};
use crate::store::lookup;

verus! {

/// One escrow in the taker's terms.
#[derive(Clone, Copy, Debug, PartialEq, Eq)]
pub struct TakerHTLC {
    /// Who funded the escrow.
    pub creator: Identity,
    /// Who receives the funds against the secret.
    pub taker: Identity,
    /// The commitment.
    pub hashlock: [u8; 32],
    /// The deadline.
    pub timelock: u64,
    /// How much is locked.
    pub amount: i128,
    /// Whether the funds went to the taker.
    pub is_claimed: bool,
}

impl TakerHTLC {
    /// The taker's view of `record`.
    pub fn of(record: &EscrowRecord) -> (htlc: TakerHTLC)
        ensures
            htlc.creator == record@.creator,
            htlc.taker == record@.beneficiary,
            htlc.hashlock@ == record@.commitment,
            htlc.timelock == record@.deadline,
            htlc.amount == record@.amount,
            htlc.is_claimed == (record@.state == EscrowState::Claimed),
    {
        TakerHTLC {
            creator: record.creator,
            taker: record.beneficiary,
            hashlock: record.commitment,
            timelock: record.deadline,
            amount: record.amount,
            is_claimed: match record.state {
                EscrowState::Claimed => true,
                _ => false,
            },
        }
    }
}

/// What `create_htlc` asks of the engine.
pub open spec fn taker_request(
    creator: Identity,
    taker: Identity,
    hashlock: Seq<u8>,
    timelock: u64,
    token: Identity,
    amount: i128,
    counterparty: CounterpartyModel,
) -> RequestModel {
    RequestModel {
        creator,
        beneficiary: taker,
        commitment: hashlock,
        lock_duration: timelock,
        token,
        amount,
        counterparty,
    }
}

/// The taker's side of a swap: claims an escrow by revealing the secret.
pub struct TakerHTLCContract;

impl TakerHTLCContract {
    /// Opens an escrow for `taker`: locks `amount` of `token` for `timelock`
    /// seconds from `host.now` under `hashlock`.
    pub fn create_htlc(
        engine: &mut Engine,
        host: &Host,
        creator: Identity,
        taker: Identity,
        hashlock: [u8; 32],
        timelock: u64,
        token: Identity,
        amount: i128,
        counterparty: Counterparty,
    ) -> (result: Result<Transfer, HtlcError>)
        requires
            old(engine).wf(),
        ensures
            final(engine).wf(),
            result == create_result(
                old(engine)@,
                *host,
                taker_request(creator, taker, hashlock@, timelock, token, amount, counterparty@),
            ),
            final(engine)@ == after_create(
                old(engine)@,
                *host,
                taker_request(creator, taker, hashlock@, timelock, token, amount, counterparty@),
            ),
    {
        let request = CreateRequest {
            creator,
            beneficiary: taker,
            commitment: hashlock,
            lock_duration: timelock,
            token,
            amount,
            counterparty,
        };
        engine.create(host, request)
    }

    /// Claims the escrow `hashlock` for its taker, against `secret` and
    /// before the timelock. Anyone who knows the secret may call.
    pub fn claim(engine: &mut Engine, host: &Host, hashlock: [u8; 32], secret: &[u8; 32]) -> (result:
        Result<Transfer, HtlcError>)
        requires
            old(engine).wf(),
        ensures
            final(engine).wf(),
            result == claim_result(old(engine)@, *host, hashlock@, secret@),
            final(engine)@ == after_claim(old(engine)@, *host, hashlock@, secret@),
    {
        engine.claim(host, &hashlock, secret)
    }

    /// Refunds the escrow `hashlock` to its creator, once the timelock has
    /// come. Anyone may call.
    pub fn refund(engine: &mut Engine, host: &Host, hashlock: [u8; 32]) -> (result: Result<
        Transfer,
        HtlcError,
    >)
        requires
            old(engine).wf(),
        ensures
            final(engine).wf(),
            result == refund_result(old(engine)@, *host, hashlock@),
            final(engine)@ == after_refund(old(engine)@, *host, hashlock@),
    {
        engine.refund(host, &hashlock)
    }

    /// Reads the escrow `hashlock` in the taker's terms. Fails with
    /// `NotFound` where none was created.
    pub fn get(engine: &Engine, hashlock: [u8; 32]) -> (result: Result<TakerHTLC, HtlcError>)
        requires
            engine.wf(),
        ensures
            match lookup(engine@.records, hashlock@) {
                None => result == Err::<TakerHTLC, HtlcError>(HtlcError::NotFound),
                Some(record) => result matches Ok(htlc) && {
                    &&& htlc.creator == record.creator
                    &&& htlc.taker == record.beneficiary
                    &&& htlc.hashlock@ == hashlock@
                    &&& htlc.timelock == record.deadline
                    &&& htlc.amount == record.amount
                    &&& htlc.is_claimed == (record.state == EscrowState::Claimed)
                },
            },
    {
        match engine.get(&hashlock) {
            Ok(record) => Ok(TakerHTLC::of(record)),
            Err(fault) => Err(fault),
        }
    }
}

/// Whether `secret` is the secret behind `hashlock`.
pub fn verify_secret(hashlock: &[u8; 32], secret: &[u8; 32]) -> (ok: bool)
    ensures
        ok == (sha256(secret@) == hashlock@),
{
    opens(hashlock, secret)
}

} // verus!
