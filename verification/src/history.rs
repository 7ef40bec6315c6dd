//! What holds over the whole life of an engine: over every sequence of calls
//! that it may receive.

use vstd::prelude::*;
use crate::engine::{
    after_claim, after_create, after_refund, claim_result, create_result, refund_result,
    well_formed, EngineModel, Host,
};
use crate::record::{EscrowState, HtlcError, RequestModel, Transfer};
use crate::store::{holds, lookup, lookup_after_push, lookup_after_update, position};
use crate::transition::{finalized, funded};

verus! {

/// One call to the engine, with what the host reports to it.
pub enum Call {
    Create { host: Host, request: RequestModel },
    Claim { host: Host, commitment: Seq<u8>, preimage: Seq<u8> },
    Refund { host: Host, commitment: Seq<u8> },
}

/// What `call` returns when the engine is `engine`.
pub open spec fn result_of(engine: EngineModel, call: Call) -> Result<Transfer, HtlcError> {
    match call {
        Call::Create { host, request } => create_result(engine, host, request),
        Call::Claim { host, commitment, preimage } => claim_result(
            engine,
            host,
            commitment,
            preimage,
        ),
        Call::Refund { host, commitment } => refund_result(engine, host, commitment),
    }
}

/// The engine after `call`.
pub open spec fn after(engine: EngineModel, call: Call) -> EngineModel {
    match call {
        Call::Create { host, request } => after_create(engine, host, request),
        Call::Claim { host, commitment, preimage } => after_claim(
            engine,
            host,
            commitment,
            preimage,
        ),
        Call::Refund { host, commitment } => after_refund(engine, host, commitment),
    }
}

/// The engine after all of `calls`, made in order.
pub open spec fn run(engine: EngineModel, calls: Seq<Call>) -> EngineModel
    decreases calls.len(),
{
    if calls.len() == 0 {
        engine
    } else {
        after(run(engine, calls.drop_last()), calls.last())
    }
}

/// Whether `call` is a claim or a refund of the escrow `commitment` that
/// succeeds when the engine is `engine`.
pub open spec fn settles(engine: EngineModel, call: Call, commitment: Seq<u8>) -> bool {
    &&& result_of(engine, call) is Ok
    &&& match call {
        Call::Create { .. } => false,
        Call::Claim { commitment: claimed, .. } => claimed == commitment,
        Call::Refund { commitment: refunded, .. } => refunded == commitment,
    }
}

/// How many of `calls`, made in order from `engine` on, are successful
/// claims or refunds of the escrow `commitment`.
pub open spec fn settlements(engine: EngineModel, calls: Seq<Call>, commitment: Seq<u8>) -> nat
    decreases calls.len(),
{
    if calls.len() == 0 {
        0
    } else {
        let earlier = settlements(engine, calls.drop_last(), commitment);
        if settles(run(engine, calls.drop_last()), calls.last(), commitment) {
            earlier + 1
        } else {
            earlier
        }
    }
}

/// Whether the escrow `commitment` was claimed or refunded.
pub open spec fn settled(engine: EngineModel, commitment: Seq<u8>) -> bool {
    &&& lookup(engine.records, commitment) is Some
    &&& lookup(engine.records, commitment).unwrap().state != EscrowState::Funded
}

/// What one call does to the escrow `commitment`: it keeps the engine well
/// formed and its custody identity; a record can appear, funded, and only
/// through a successful create; a record that is there keeps everything but
/// its state; a funded record changes state only through a successful claim
/// or refund of it; and a settled record does not change at all.
pub proof fn one_call(engine: EngineModel, call: Call, commitment: Seq<u8>)
    requires
        well_formed(engine),
    ensures
        well_formed(after(engine, call)),
        after(engine, call).custody == engine.custody,
        result_of(engine, call) is Err ==> after(engine, call) == engine,
        holds(engine.records, commitment) ==> holds(after(engine, call).records, commitment),
        settles(engine, call, commitment) ==> !settled(engine, commitment) && settled(
            after(engine, call),
            commitment,
        ),
        !settles(engine, call, commitment) ==> (settled(after(engine, call), commitment)
            <==> settled(engine, commitment)),
        lookup(engine.records, commitment) matches Some(record) ==> lookup(
            after(engine, call).records,
            commitment,
        ) matches Some(later) && later == finalized(record, later.state) && (settled(
            engine,
            commitment,
        ) ==> later == record),
{
    match call {
        Call::Create { host, request } => {
            if create_result(engine, host, request) is Ok {
                let record = funded(request, host.now);
                lookup_after_push(engine.records, record, commitment);
                let grown = engine.records.push(record);
                assert forall|i: int| 0 <= i < grown.len() implies (#[trigger] grown[i]).amount
                    > 0 by {
                    if i < engine.records.len() {
                        assert(grown[i] == engine.records[i]);
                    }
                }
            }
        },
        Call::Claim { host, commitment: claimed, preimage } => {
            if claim_result(engine, host, claimed, preimage) is Ok {
                let at = position(engine.records, claimed);
                let record = finalized(engine.records[at], EscrowState::Claimed);
                lookup_after_update(engine.records, at, record, commitment);
                let changed = engine.records.update(at, record);
                assert forall|i: int| 0 <= i < changed.len() implies (
                #[trigger] changed[i]).amount > 0 by {
                    assert(changed[i].amount == engine.records[i].amount);
                }
            }
        },
        Call::Refund { host, commitment: refunded } => {
            if refund_result(engine, host, refunded) is Ok {
                let at = position(engine.records, refunded);
                let record = finalized(engine.records[at], EscrowState::Refunded);
                lookup_after_update(engine.records, at, record, commitment);
                let changed = engine.records.update(at, record);
                assert forall|i: int| 0 <= i < changed.len() implies (
                #[trigger] changed[i]).amount > 0 by {
                    assert(changed[i].amount == engine.records[i].amount);
                }
            }
        },
    }
}

/// Every sequence of calls keeps the engine well formed and its custody
/// identity.
pub proof fn run_keeps_well_formed(engine: EngineModel, calls: Seq<Call>)
    requires
        well_formed(engine),
    ensures
        well_formed(run(engine, calls)),
        run(engine, calls).custody == engine.custody,
    decreases calls.len(),
{
    if calls.len() > 0 {
        run_keeps_well_formed(engine, calls.drop_last());
        one_call(run(engine, calls.drop_last()), calls.last(), Seq::empty());
    }
}

/// Over the whole life of an engine, each escrow is claimed or refunded at
/// most once: the successful claims and refunds of one commitment, counted
/// over any sequence of calls, are one if the escrow ends up settled and was
/// not settled before, and none otherwise.
pub proof fn settled_at_most_once(engine: EngineModel, calls: Seq<Call>, commitment: Seq<u8>)
    requires
        well_formed(engine),
    ensures
        settlements(engine, calls, commitment) <= 1,
        settlements(engine, calls, commitment) == 1 <==> settled(run(engine, calls), commitment)
            && !settled(engine, commitment),
        settled(engine, commitment) ==> settled(run(engine, calls), commitment),
    decreases calls.len(),
{
    if calls.len() > 0 {
        settled_at_most_once(engine, calls.drop_last(), commitment);
        run_keeps_well_formed(engine, calls.drop_last());
        one_call(run(engine, calls.drop_last()), calls.last(), commitment);
    }
}

/// A commitment that the engine knows stays known: after any sequence of
/// calls the record is still there, with nothing changed but possibly its
/// state, and with nothing changed at all if it was settled. So the amount,
/// the deadline and the parties of an escrow never change, and a settled
/// escrow is final.
pub proof fn record_is_kept(engine: EngineModel, calls: Seq<Call>, commitment: Seq<u8>)
    requires
        well_formed(engine),
        holds(engine.records, commitment),
    ensures
        holds(run(engine, calls).records, commitment),
        lookup(run(engine, calls).records, commitment).unwrap() == finalized(
            lookup(engine.records, commitment).unwrap(),
            lookup(run(engine, calls).records, commitment).unwrap().state,
        ),
        settled(engine, commitment) ==> lookup(run(engine, calls).records, commitment) == lookup(
            engine.records,
            commitment,
        ),
    decreases calls.len(),
{
    if calls.len() > 0 {
        record_is_kept(engine, calls.drop_last(), commitment);
        run_keeps_well_formed(engine, calls.drop_last());
        settled_at_most_once(engine, calls.drop_last(), commitment);
        one_call(run(engine, calls.drop_last()), calls.last(), commitment);
    }
}

/// A commitment can be used once: after an escrow was created under it,
/// whatever calls follow, every authorized request to create another one
/// under it, with a positive amount and a positive lock, fails with
/// `AlreadyExists`.
pub proof fn commitment_is_used_once(
    engine: EngineModel,
    calls: Seq<Call>,
    host: Host,
    request: RequestModel,
)
    requires
        well_formed(engine),
        holds(engine.records, request.commitment),
        host.authorized,
        request.amount > 0,
        request.lock_duration > 0,
    ensures
        create_result(run(engine, calls), host, request) == Err::<Transfer, HtlcError>(
            HtlcError::AlreadyExists,
        ),
{
    record_is_kept(engine, calls, request.commitment);
}

} // verus!
