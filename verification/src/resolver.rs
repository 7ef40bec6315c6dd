//! The escrow as a resolver sees it.
//!
//! A resolver settles escrows that others created: it resolves one by
//! presenting the secret, or lets it time out. In this view the commitment
//! is the `hash` and the deadline the `timeout`.

use vstd::prelude::*;
use crate::commitment::sha256;
use crate::engine::{after_claim, after_refund, claim_result, refund_result, Engine, Host};
use crate::record::{EscrowRecord, EscrowState, HtlcError, Identity, Transfer};
use crate::store::lookup;

verus! {

/// One escrow in the resolver's terms.
#[derive(Clone, Copy, Debug, PartialEq, Eq)]
pub struct HTLC {
    /// Who funded the escrow.
    pub creator: Identity,
    /// Who receives the funds against the secret.
    pub taker: Identity,
    /// The commitment.
    pub hash: [u8; 32],
    /// The deadline.
    pub timeout: u64,
    /// How much is locked.
    pub amount: i128,
    /// Whether the escrow was settled, by claim or by refund.
    pub is_resolved: bool,
}

impl HTLC {
    /// The resolver's view of `record`.
    pub fn of(record: &EscrowRecord) -> (htlc: HTLC)
        ensures
            htlc.creator == record@.creator,
            htlc.taker == record@.beneficiary,
            htlc.hash@ == record@.commitment,
            htlc.timeout == record@.deadline,
            htlc.amount == record@.amount,
            htlc.is_resolved == (record@.state != EscrowState::Funded),
    {
        HTLC {
            creator: record.creator,
            taker: record.beneficiary,
            hash: record.commitment,
            timeout: record.deadline,
            amount: record.amount,
            is_resolved: match record.state {
                EscrowState::Funded => false,
                _ => true,
            },
        }
    }
}

/// The resolver's side of a swap: settles escrows that others created.
pub struct ResolverContract;

impl ResolverContract {
    /// Resolves the escrow `hash` in favour of its taker, against `secret`
    /// and before the timeout.
    pub fn resolve(engine: &mut Engine, host: &Host, hash: [u8; 32], secret: [u8; 32]) -> (result:
        Result<Transfer, HtlcError>)
        requires
            old(engine).wf(),
        ensures
            final(engine).wf(),
            result == claim_result(old(engine)@, *host, hash@, secret@),
            final(engine)@ == after_claim(old(engine)@, *host, hash@, secret@),
    {
        engine.claim(host, &hash, &secret)
    }

    /// Lets the escrow `hash` time out: from the timeout on, sends the funds
    /// back to its creator.
    pub fn timeout(engine: &mut Engine, host: &Host, hash: [u8; 32]) -> (result: Result<
        Transfer,
        HtlcError,
    >)
        requires
            old(engine).wf(),
        ensures
            final(engine).wf(),
            result == refund_result(old(engine)@, *host, hash@),
            final(engine)@ == after_refund(old(engine)@, *host, hash@),
    {
        engine.refund(host, &hash)
    }

    /// The hash of `secret` under which an escrow is found and opened.
    pub fn hash(secret: [u8; 32]) -> (digest: [u8; 32])
        ensures
            digest@ == sha256(secret@),
    {
        crate::commitment::hash(&secret)
    }

    /// Reads the escrow `hash` in the resolver's terms. Fails with
    /// `NotFound` where none was created.
    pub fn get(engine: &Engine, hash: [u8; 32]) -> (result: Result<HTLC, HtlcError>)
        requires
            engine.wf(),
        ensures
            match lookup(engine@.records, hash@) {
                None => result == Err::<HTLC, HtlcError>(HtlcError::NotFound),
                Some(record) => result matches Ok(htlc) && {
                    &&& htlc.creator == record.creator
                    &&& htlc.taker == record.beneficiary
                    &&& htlc.hash@ == hash@
                    &&& htlc.timeout == record.deadline
                    &&& htlc.amount == record.amount
                    &&& htlc.is_resolved == (record.state != EscrowState::Funded)
                },
            },
    {
        match engine.get(&hash) {
            Ok(record) => Ok(HTLC::of(record)),
            Err(fault) => Err(fault),
        }
    }
}

} // verus!
