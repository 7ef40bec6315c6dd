//! What the engine's transfers do to token balances.
//!
//! The token contracts are not part of the engine; here their books are a
//! mathematical map from a token and a holder to a balance, on which each
//! transfer that the engine makes is booked. Over that map the engine's
//! custody is accounted for: what it holds of a token is what its funded
//! escrows lock of it.

use vstd::prelude::*;
use crate::engine::{
    after_create, claim_result, create_result, refund_result, well_formed, EngineModel, Host,
};
use crate::history::{after, one_call, result_of, run, run_keeps_well_formed, Call};
use crate::record::{EscrowState, HtlcError, Identity, RecordModel, RequestModel, Transfer};
use crate::store::{lookup_after_push, position};
use crate::transition::{finalized, funded};

verus! {

/// The books of all tokens: for a token and a holder, the holder's balance.
/// Who is not in the books holds nothing.
pub type Balances = Map<(Identity, Identity), int>;

/// What `holder` holds of `token`.
pub open spec fn balance(ledger: Balances, token: Identity, holder: Identity) -> int {
    if ledger.contains_key((token, holder)) {
        ledger[(token, holder)]
    } else {
        0
    }
}

/// The books after `transfer`: the sender debited, then the receiver
/// credited.
pub open spec fn apply(ledger: Balances, transfer: Transfer) -> Balances {
    let debited = ledger.insert(
        (transfer.token, transfer.from),
        balance(ledger, transfer.token, transfer.from) - transfer.amount,
    );
    debited.insert(
        (transfer.token, transfer.to),
        balance(debited, transfer.token, transfer.to) + transfer.amount,
    )
}

/// The books after a transition: with its transfer booked if it succeeded,
/// unchanged if it failed.
pub open spec fn booked(ledger: Balances, result: Result<Transfer, HtlcError>) -> Balances {
    match result {
        Ok(transfer) => apply(ledger, transfer),
        Err(_) => ledger,
    }
}

/// The books after all of `calls`, made in order from `engine` on.
pub open spec fn books_after(engine: EngineModel, ledger: Balances, calls: Seq<Call>) -> Balances
    decreases calls.len(),
{
    if calls.len() == 0 {
        ledger
    } else {
        booked(
            books_after(engine, ledger, calls.drop_last()),
            result_of(run(engine, calls.drop_last()), calls.last()),
        )
    }
}

/// What `record` locks of `token`: its amount while it is funded, nothing
/// once it is settled.
pub open spec fn locked(record: RecordModel, token: Identity) -> int {
    if record.state == EscrowState::Funded && record.token == token {
        record.amount as int
    } else {
        0
    }
}

/// What all of `records` together lock of `token`.
pub open spec fn funded_total(records: Seq<RecordModel>, token: Identity) -> int
    decreases records.len(),
{
    if records.len() == 0 {
        0
    } else {
        funded_total(records.drop_last(), token) + locked(records.last(), token)
    }
}

/// No escrow has the engine's own custody identity as its creator or as its
/// beneficiary.
pub open spec fn at_arms_length(engine: EngineModel) -> bool {
    forall|i: int|
        0 <= i < engine.records.len() ==> (#[trigger] engine.records[i]).creator != engine.custody
            && engine.records[i].beneficiary != engine.custody
}

/// `call` does not ask for an escrow whose creator or beneficiary is
/// `custody`.
pub open spec fn keeps_arms_length(custody: Identity, call: Call) -> bool {
    call matches Call::Create { request, .. } ==> request.creator != custody && request.beneficiary
        != custody
}

/// A transfer takes its amount from the sender and gives it to the
/// receiver, in the books of its token, and touches no other balance. A
/// transfer from a holder to itself changes nothing.
pub proof fn transfer_moves_amount(
    ledger: Balances,
    transfer: Transfer,
    token: Identity,
    holder: Identity,
)
    ensures
        balance(apply(ledger, transfer), token, holder) == balance(ledger, token, holder) + (if token
            == transfer.token && holder == transfer.to {
            transfer.amount as int
        } else {
            0
        }) - (if token == transfer.token && holder == transfer.from {
            transfer.amount as int
        } else {
            0
        }),
{
}

/// A record appended adds what it locks to the total.
proof fn total_after_push(records: Seq<RecordModel>, record: RecordModel, token: Identity)
    ensures
        funded_total(records.push(record), token) == funded_total(records, token) + locked(
            record,
            token,
        ),
{
    assert(records.push(record).drop_last() =~= records);
}

/// A record replaced changes the total by the difference of what the two
/// lock.
proof fn total_after_update(
    records: Seq<RecordModel>,
    i: int,
    record: RecordModel,
    token: Identity,
)
    requires
        0 <= i < records.len(),
    ensures
        funded_total(records.update(i, record), token) == funded_total(records, token) - locked(
            records[i],
            token,
        ) + locked(record, token),
    decreases records.len(),
{
    let changed = records.update(i, record);
    if i == records.len() - 1 {
        assert(changed.drop_last() =~= records.drop_last());
    } else {
        total_after_update(records.drop_last(), i, record, token);
        assert(changed.drop_last() =~= records.drop_last().update(i, record));
    }
}

/// One call keeps custody and escrows in step: if before the call the
/// engine held of `token` exactly what its funded escrows locked of it, and
/// the call's transfer is booked, the same holds after the call. This is
/// stated for engines that deal at arm's length: a transfer from custody to
/// custody would change the records and not the books.
pub proof fn custody_follows_one_call(
    engine: EngineModel,
    ledger: Balances,
    call: Call,
    token: Identity,
)
    requires
        well_formed(engine),
        at_arms_length(engine),
        keeps_arms_length(engine.custody, call),
        balance(ledger, token, engine.custody) == funded_total(engine.records, token),
    ensures
        at_arms_length(after(engine, call)),
        balance(booked(ledger, result_of(engine, call)), token, after(engine, call).custody)
            == funded_total(after(engine, call).records, token),
{
    one_call(engine, call, Seq::empty());
    if result_of(engine, call) is Ok {
        let transfer = result_of(engine, call).unwrap();
        transfer_moves_amount(ledger, transfer, token, engine.custody);
        match call {
            Call::Create { host, request } => {
                let record = funded(request, host.now);
                total_after_push(engine.records, record, token);
                let grown = engine.records.push(record);
                assert forall|i: int| 0 <= i < grown.len() implies (#[trigger] grown[i]).creator
                    != engine.custody && grown[i].beneficiary != engine.custody by {
                    if i < engine.records.len() {
                        assert(grown[i] == engine.records[i]);
                    }
                }
            },
            Call::Claim { host, commitment, preimage } => {
                let at = position(engine.records, commitment);
                let record = finalized(engine.records[at], EscrowState::Claimed);
                total_after_update(engine.records, at, record, token);
                let changed = engine.records.update(at, record);
                assert forall|i: int| 0 <= i < changed.len() implies (
                #[trigger] changed[i]).creator != engine.custody && changed[i].beneficiary
                    != engine.custody by {
                    assert(changed[i].creator == engine.records[i].creator);
                    assert(changed[i].beneficiary == engine.records[i].beneficiary);
                }
            },
            Call::Refund { host, commitment } => {
                let at = position(engine.records, commitment);
                let record = finalized(engine.records[at], EscrowState::Refunded);
                total_after_update(engine.records, at, record, token);
                let changed = engine.records.update(at, record);
                assert forall|i: int| 0 <= i < changed.len() implies (
                #[trigger] changed[i]).creator != engine.custody && changed[i].beneficiary
                    != engine.custody by {
                    assert(changed[i].creator == engine.records[i].creator);
                    assert(changed[i].beneficiary == engine.records[i].beneficiary);
                }
            },
        }
    }
}

/// Over the whole life of an engine that deals at arm's length, and for
/// every token, what the engine holds in custody is what its funded escrows
/// lock: if that holds at some point, it holds after every sequence of calls
/// whose transfers are booked.
pub proof fn custody_equals_funded(
    engine: EngineModel,
    ledger: Balances,
    calls: Seq<Call>,
    token: Identity,
)
    requires
        well_formed(engine),
        at_arms_length(engine),
        forall|k: int| 0 <= k < calls.len() ==> keeps_arms_length(engine.custody, #[trigger] calls[k]),
        balance(ledger, token, engine.custody) == funded_total(engine.records, token),
    ensures
        at_arms_length(run(engine, calls)),
        balance(books_after(engine, ledger, calls), token, engine.custody) == funded_total(
            run(engine, calls).records,
            token,
        ),
    decreases calls.len(),
{
    if calls.len() > 0 {
        let earlier = calls.drop_last();
        assert forall|k: int| 0 <= k < earlier.len() implies keeps_arms_length(
            engine.custody,
            #[trigger] earlier[k],
        ) by {
            assert(earlier[k] == calls[k]);
        }
        custody_equals_funded(engine, ledger, earlier, token);
        run_keeps_well_formed(engine, earlier);
        assert(keeps_arms_length(engine.custody, calls[calls.len() - 1]));
        custody_follows_one_call(
            run(engine, earlier),
            books_after(engine, ledger, earlier),
            calls.last(),
            token,
        );
    }
}

/// A new engine with empty books holds nothing and locks nothing, so what
/// `custody_equals_funded` asks for at the start holds of it.
pub proof fn starts_balanced(custody: Identity, token: Identity)
    ensures
        well_formed(crate::engine::empty(custody)),
        at_arms_length(crate::engine::empty(custody)),
        balance(Map::empty(), token, custody) == funded_total(
            crate::engine::empty(custody).records,
            token,
        ),
{
}

/// Creating an escrow and refunding it after the deadline is a round trip:
/// once both transfers are booked, every balance of every token is what it
/// was before, the creator's among them.
pub proof fn refund_restores_every_balance(
    engine: EngineModel,
    ledger: Balances,
    opening: Host,
    request: RequestModel,
    closing: Host,
    token: Identity,
    holder: Identity,
)
    requires
        well_formed(engine),
        create_result(engine, opening, request) is Ok,
        refund_result(after_create(engine, opening, request), closing, request.commitment) is Ok,
    ensures
        closing.now >= opening.now + request.lock_duration,
        balance(
            apply(
                apply(ledger, create_result(engine, opening, request).unwrap()),
                refund_result(
                    after_create(engine, opening, request),
                    closing,
                    request.commitment,
                ).unwrap(),
            ),
            token,
            holder,
        ) == balance(ledger, token, holder),
{
    let opened = after_create(engine, opening, request);
    let deposit = create_result(engine, opening, request).unwrap();
    let restitution = refund_result(opened, closing, request.commitment).unwrap();
    lookup_after_push(engine.records, funded(request, opening.now), request.commitment);
    transfer_moves_amount(ledger, deposit, token, holder);
    transfer_moves_amount(apply(ledger, deposit), restitution, token, holder);
}

/// Creating an escrow and claiming it with the secret moves exactly the
/// locked amount from the creator to the beneficiary: once both transfers
/// are booked, the beneficiary holds that much more of the token and the
/// creator that much less. This is stated for a beneficiary other than the
/// creator; one who is both ends where they began.
pub proof fn claim_moves_amount_to_beneficiary(
    engine: EngineModel,
    ledger: Balances,
    opening: Host,
    request: RequestModel,
    closing: Host,
    preimage: Seq<u8>,
)
    requires
        well_formed(engine),
        request.creator != request.beneficiary,
        create_result(engine, opening, request) is Ok,
        claim_result(
            after_create(engine, opening, request),
            closing,
            request.commitment,
            preimage,
        ) is Ok,
    ensures
        ({
            let paid = apply(
                apply(ledger, create_result(engine, opening, request).unwrap()),
                claim_result(
                    after_create(engine, opening, request),
                    closing,
                    request.commitment,
                    preimage,
                ).unwrap(),
            );
            &&& balance(paid, request.token, request.beneficiary) == balance(
                ledger,
                request.token,
                request.beneficiary,
            ) + request.amount
            &&& balance(paid, request.token, request.creator) == balance(
                ledger,
                request.token,
                request.creator,
            ) - request.amount
        }),
{
    let opened = after_create(engine, opening, request);
    let deposit = create_result(engine, opening, request).unwrap();
    let payout = claim_result(opened, closing, request.commitment, preimage).unwrap();
    lookup_after_push(engine.records, funded(request, opening.now), request.commitment);
    transfer_moves_amount(ledger, deposit, request.token, request.beneficiary);
    transfer_moves_amount(apply(ledger, deposit), payout, request.token, request.beneficiary);
    transfer_moves_amount(ledger, deposit, request.token, request.creator);
    transfer_moves_amount(apply(ledger, deposit), payout, request.token, request.creator);
}

} // verus!
