//! What holds of every single transition of the engine.
//!
//! Each statement here is proved from the definitions in `transition` and
//! `engine`, the same ones that the contracts of the executable functions
//! are written with.

use vstd::prelude::*;
use crate::commitment::sha256;
use crate::engine::{
    after_claim, after_create, after_refund, claim_result, create_result, refund_result,
    well_formed, EngineModel, Host,
};
use crate::record::{EscrowState, HtlcError, RecordModel, RequestModel, Transfer};
use crate::store::{holds, lookup, lookup_after_push, lookup_after_update, position};
use crate::transition::{
    claim_fault, claim_permitted, finalized, funded, payout, refund_fault, refund_permitted,
    restitution,
};

verus! {

/// A claim goes through exactly when it is permitted: on a funded escrow,
/// before the deadline, against the secret behind the commitment.
pub proof fn claim_goes_through_iff_permitted(record: RecordModel, now: u64, preimage: Seq<u8>)
    ensures
        claim_fault(Some(record), now, preimage) is None <==> claim_permitted(
            record,
            now,
            preimage,
        ),
{
}

/// A refund goes through exactly when it is permitted: on a funded escrow,
/// from the deadline on.
pub proof fn refund_goes_through_iff_permitted(record: RecordModel, now: u64)
    ensures
        refund_fault(Some(record), now) is None <==> refund_permitted(record, now),
{
}

/// An escrow that was just created is funded, locks a positive amount, is
/// found under its commitment, and its deadline lies after the time of its
/// creation.
pub proof fn fresh_escrow_is_live(engine: EngineModel, host: Host, request: RequestModel)
    requires
        well_formed(engine),
        create_result(engine, host, request) is Ok,
    ensures
        lookup(after_create(engine, host, request).records, request.commitment) == Some(
            funded(request, host.now),
        ),
        funded(request, host.now).state == EscrowState::Funded,
        funded(request, host.now).amount > 0,
        funded(request, host.now).deadline == host.now + request.lock_duration,
        host.now < funded(request, host.now).deadline,
{
    lookup_after_push(engine.records, funded(request, host.now), request.commitment);
}

/// A claim that succeeded was made with the secret behind the commitment and
/// strictly before the deadline, on an escrow that was funded. It paid the
/// locked amount to the beneficiary and left the escrow claimed.
pub proof fn claim_success_means(
    engine: EngineModel,
    host: Host,
    commitment: Seq<u8>,
    preimage: Seq<u8>,
)
    requires
        well_formed(engine),
        claim_result(engine, host, commitment, preimage) is Ok,
    ensures
        lookup(engine.records, commitment) is Some,
        sha256(preimage) == commitment,
        lookup(engine.records, commitment).unwrap().state == EscrowState::Funded,
        host.now < lookup(engine.records, commitment).unwrap().deadline,
        claim_result(engine, host, commitment, preimage) == Ok::<Transfer, HtlcError>(
            payout(lookup(engine.records, commitment).unwrap(), engine.custody),
        ),
        lookup(after_claim(engine, host, commitment, preimage).records, commitment) == Some(
            finalized(lookup(engine.records, commitment).unwrap(), EscrowState::Claimed),
        ),
{
    let record = lookup(engine.records, commitment).unwrap();
    lookup_after_update(
        engine.records,
        position(engine.records, commitment),
        finalized(record, EscrowState::Claimed),
        commitment,
    );
}

/// A refund that succeeded was made at or after the deadline, on an escrow
/// that was funded. It paid the locked amount back to the creator and left
/// the escrow refunded.
pub proof fn refund_success_means(engine: EngineModel, host: Host, commitment: Seq<u8>)
    requires
        well_formed(engine),
        refund_result(engine, host, commitment) is Ok,
    ensures
        lookup(engine.records, commitment) is Some,
        lookup(engine.records, commitment).unwrap().state == EscrowState::Funded,
        host.now >= lookup(engine.records, commitment).unwrap().deadline,
        refund_result(engine, host, commitment) == Ok::<Transfer, HtlcError>(
            restitution(lookup(engine.records, commitment).unwrap(), engine.custody),
        ),
        lookup(after_refund(engine, host, commitment).records, commitment) == Some(
            finalized(lookup(engine.records, commitment).unwrap(), EscrowState::Refunded),
        ),
{
    let record = lookup(engine.records, commitment).unwrap();
    lookup_after_update(
        engine.records,
        position(engine.records, commitment),
        finalized(record, EscrowState::Refunded),
        commitment,
    );
}

/// A transition that fails leaves the engine as it was.
pub proof fn failure_changes_nothing(
    engine: EngineModel,
    host: Host,
    request: RequestModel,
    commitment: Seq<u8>,
    preimage: Seq<u8>,
)
    ensures
        create_result(engine, host, request) is Err ==> after_create(engine, host, request)
            == engine,
        claim_result(engine, host, commitment, preimage) is Err ==> after_claim(
            engine,
            host,
            commitment,
            preimage,
        ) == engine,
        refund_result(engine, host, commitment) is Err ==> after_refund(engine, host, commitment)
            == engine,
{
}

/// On an escrow that was claimed or refunded, every further claim and every
/// further refund fails with `AlreadyFinalized`, whatever the time, the
/// preimage and the token contract's answer, and changes nothing.
pub proof fn settled_escrow_refuses(
    engine: EngineModel,
    host: Host,
    commitment: Seq<u8>,
    preimage: Seq<u8>,
)
    requires
        lookup(engine.records, commitment) is Some,
        lookup(engine.records, commitment).unwrap().state != EscrowState::Funded,
    ensures
        claim_result(engine, host, commitment, preimage) == Err::<Transfer, HtlcError>(
            HtlcError::AlreadyFinalized,
        ),
        after_claim(engine, host, commitment, preimage) == engine,
        refund_result(engine, host, commitment) == Err::<Transfer, HtlcError>(
            HtlcError::AlreadyFinalized,
        ),
        after_refund(engine, host, commitment) == engine,
{
}

/// One second before the deadline of a funded escrow, a claim with the
/// secret is accepted and a refund is rejected with `NotYetExpired`.
pub proof fn last_second_belongs_to_the_claim(
    engine: EngineModel,
    host: Host,
    commitment: Seq<u8>,
    preimage: Seq<u8>,
)
    requires
        lookup(engine.records, commitment) is Some,
        lookup(engine.records, commitment).unwrap().state == EscrowState::Funded,
        host.now == lookup(engine.records, commitment).unwrap().deadline - 1,
        sha256(preimage) == lookup(engine.records, commitment).unwrap().commitment,
        host.transfer_accepted,
    ensures
        claim_result(engine, host, commitment, preimage) is Ok,
        refund_result(engine, host, commitment) == Err::<Transfer, HtlcError>(
            HtlcError::NotYetExpired,
        ),
{
}

/// At the deadline of a funded escrow, a claim is rejected with `Expired`,
/// even with the secret, and a refund is accepted.
pub proof fn deadline_belongs_to_the_refund(
    engine: EngineModel,
    host: Host,
    commitment: Seq<u8>,
    preimage: Seq<u8>,
)
    requires
        lookup(engine.records, commitment) is Some,
        lookup(engine.records, commitment).unwrap().state == EscrowState::Funded,
        host.now == lookup(engine.records, commitment).unwrap().deadline,
        host.transfer_accepted,
    ensures
        claim_result(engine, host, commitment, preimage) == Err::<Transfer, HtlcError>(
            HtlcError::Expired,
        ),
        refund_result(engine, host, commitment) is Ok,
{
}

/// An authorized request to lock nothing, or less, is rejected with
/// `InvalidAmount`.
pub proof fn empty_amount_is_rejected(engine: EngineModel, host: Host, request: RequestModel)
    requires
        host.authorized,
        request.amount <= 0,
    ensures
        create_result(engine, host, request) == Err::<Transfer, HtlcError>(
            HtlcError::InvalidAmount,
        ),
{
}

/// An authorized request to lock a positive amount for zero seconds is
/// rejected with `InvalidDeadline`.
pub proof fn empty_lock_is_rejected(engine: EngineModel, host: Host, request: RequestModel)
    requires
        host.authorized,
        request.amount > 0,
        request.lock_duration == 0,
    ensures
        create_result(engine, host, request) == Err::<Transfer, HtlcError>(
            HtlcError::InvalidDeadline,
        ),
{
}

/// An authorized request with a positive amount and a positive lock, under
/// a commitment that the engine already knows, is rejected with
/// `AlreadyExists`, whatever else it asks for.
pub proof fn known_commitment_is_rejected(engine: EngineModel, host: Host, request: RequestModel)
    requires
        host.authorized,
        request.amount > 0,
        request.lock_duration > 0,
        holds(engine.records, request.commitment),
    ensures
        create_result(engine, host, request) == Err::<Transfer, HtlcError>(
            HtlcError::AlreadyExists,
        ),
{
}

/// Claims and refunds ask for nobody's authorization: the host's answer to
/// that question changes neither what they return nor what they write.
pub proof fn settling_is_permissionless(
    engine: EngineModel,
    host: Host,
    commitment: Seq<u8>,
    preimage: Seq<u8>,
)
    ensures
        claim_result(engine, host, commitment, preimage) == claim_result(
            engine,
            Host { authorized: !host.authorized, ..host },
            commitment,
            preimage,
        ),
        after_claim(engine, host, commitment, preimage) == after_claim(
            engine,
            Host { authorized: !host.authorized, ..host },
            commitment,
            preimage,
        ),
        refund_result(engine, host, commitment) == refund_result(
            engine,
            Host { authorized: !host.authorized, ..host },
            commitment,
        ),
        after_refund(engine, host, commitment) == after_refund(
            engine,
            Host { authorized: !host.authorized, ..host },
            commitment,
        ),
{
}

} // verus!
