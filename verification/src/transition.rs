//! The state machine of one escrow.
//!
//! Each transition is decided here from plain values: the record as the store
//! holds it, the host's clock, and the caller's arguments. A decision is
//! either a fault or a `Plan`: the transfer that the token contract has to
//! make and the record to write once it has made it. Reading the clock,
//! moving tokens and persisting records are the host's part.

use vstd::prelude::*;
use crate::commitment::{opens, sha256};
use crate::record::{
    CreateRequest, EscrowRecord, EscrowState, HtlcError, Identity, RecordModel, RequestModel,
    Transfer,
};

verus! {

/// The record that opening an escrow for `request` at time `now` writes.
pub open spec fn funded(request: RequestModel, now: u64) -> RecordModel {
    RecordModel {
        commitment: request.commitment,
        creator: request.creator,
        beneficiary: request.beneficiary,
        token: request.token,
        amount: request.amount,
        deadline: (now + request.lock_duration) as u64,
        counterparty: request.counterparty,
        state: EscrowState::Funded,
    }
}

/// `record` with nothing changed but its state.
pub open spec fn finalized(record: RecordModel, state: EscrowState) -> RecordModel {
    RecordModel { state, ..record }
}

/// The transfer that funds an escrow: from the creator into custody.
pub open spec fn deposit(request: RequestModel, custody: Identity) -> Transfer {
    Transfer { token: request.token, from: request.creator, to: custody, amount: request.amount }
}

/// The transfer that a claim makes: out of custody to the beneficiary.
pub open spec fn payout(record: RecordModel, custody: Identity) -> Transfer {
    Transfer { token: record.token, from: custody, to: record.beneficiary, amount: record.amount }
}

/// The transfer that a refund makes: out of custody back to the creator.
pub open spec fn restitution(record: RecordModel, custody: Identity) -> Transfer {
    Transfer { token: record.token, from: custody, to: record.creator, amount: record.amount }
}

/// A claim is permitted on a funded escrow, before its deadline, against the
/// secret behind its commitment, and in no other case.
pub open spec fn claim_permitted(record: RecordModel, now: u64, preimage: Seq<u8>) -> bool {
    &&& record.state == EscrowState::Funded
    &&& now < record.deadline
    &&& sha256(preimage) == record.commitment
}

/// A refund is permitted on a funded escrow from its deadline on, and in no
/// other case.
pub open spec fn refund_permitted(record: RecordModel, now: u64) -> bool {
    &&& record.state == EscrowState::Funded
    &&& now >= record.deadline
}

/// Why opening an escrow is refused, if it is. The checks come in this
/// order: the creator's authorization, the amount, the length of the lock,
/// the commitment being new, and the deadline fitting the clock.
pub open spec fn create_fault(
    now: u64,
    authorized: bool,
    occupied: bool,
    request: RequestModel,
) -> Option<HtlcError> {
    if !authorized {
        Some(HtlcError::Unauthorized)
    } else if request.amount <= 0 {
        Some(HtlcError::InvalidAmount)
    } else if request.lock_duration == 0 {
        Some(HtlcError::InvalidDeadline)
    } else if occupied {
        Some(HtlcError::AlreadyExists)
    } else if now + request.lock_duration > u64::MAX {
        Some(HtlcError::InvalidDeadline)
    } else {
        None
    }
}

/// Why a claim is refused, if it is. `slot` is what the store holds under
/// the commitment. The checks come in this order: the record being there,
/// its state, the deadline, and the preimage.
pub open spec fn claim_fault(slot: Option<RecordModel>, now: u64, preimage: Seq<u8>) -> Option<
    HtlcError,
> {
    match slot {
        None => Some(HtlcError::NotFound),
        Some(record) => if record.state != EscrowState::Funded {
            Some(HtlcError::AlreadyFinalized)
        } else if now >= record.deadline {
            Some(HtlcError::Expired)
        } else if sha256(preimage) != record.commitment {
            Some(HtlcError::BadPreimage)
        } else {
            None
        },
    }
}

/// Why a refund is refused, if it is. The checks come in this order: the
/// record being there, its state, and the deadline.
pub open spec fn refund_fault(slot: Option<RecordModel>, now: u64) -> Option<HtlcError> {
    match slot {
        None => Some(HtlcError::NotFound),
        Some(record) => if record.state != EscrowState::Funded {
            Some(HtlcError::AlreadyFinalized)
        } else if now < record.deadline {
            Some(HtlcError::NotYetExpired)
        } else {
            None
        },
    }
}

/// What a permitted transition asks of the host: make `transfer`, then write
/// `record`.
#[derive(Debug, PartialEq, Eq)]
pub struct Plan {
    /// The movement of tokens that the transition makes.
    pub transfer: Transfer,
    /// The record as it stands after the transition.
    pub record: EscrowRecord,
}

/// A `Plan` as a mathematical value.
pub struct PlanModel {
    pub transfer: Transfer,
    pub record: RecordModel,
}

impl View for Plan {
    type V = PlanModel;

    open spec fn view(&self) -> PlanModel {
        PlanModel { transfer: self.transfer, record: self.record@ }
    }
}

impl Plan {
    /// Closes a transition once the token contract has answered: `moved`
    /// says whether it made the transfer. If it did, the record is to be
    /// written; if not, the transition fails and nothing is.
    pub fn settle(self, moved: bool) -> (result: Result<EscrowRecord, HtlcError>)
        ensures
            moved ==> result is Ok && result.unwrap()@ == self@.record,
            !moved ==> result == Err::<EscrowRecord, HtlcError>(HtlcError::TokenTransferFailed),
    {
        if moved {
            Ok(self.record)
        } else {
            Err(HtlcError::TokenTransferFailed)
        }
    }
}

/// Decides whether an escrow is opened for `request` at time `now`.
/// `authorized` says whether the creator has authorized the call, `occupied`
/// whether the store already holds a record under the commitment, and
/// `custody` is the identity under which the engine holds funds.
pub fn create(
    now: u64,
    authorized: bool,
    occupied: bool,
    custody: Identity,
    request: CreateRequest,
) -> (result: Result<Plan, HtlcError>)
    ensures
        match create_fault(now, authorized, occupied, request@) {
            Some(fault) => result == Err::<Plan, HtlcError>(fault),
            None => result is Ok && result.unwrap()@ == (PlanModel {
                transfer: deposit(request@, custody),
                record: funded(request@, now),
            }),
        },
{
    if !authorized {
        return Err(HtlcError::Unauthorized);
    }
    if request.amount <= 0 {
        return Err(HtlcError::InvalidAmount);
    }
    if request.lock_duration == 0 {
        return Err(HtlcError::InvalidDeadline);
    }
    if occupied {
        return Err(HtlcError::AlreadyExists);
    }
    let deadline = match now.checked_add(request.lock_duration) {
        Some(deadline) => deadline,
        None => {
            return Err(HtlcError::InvalidDeadline);
        },
    };
    let transfer = Transfer {
        token: request.token,
        from: request.creator,
        to: custody,
        amount: request.amount,
    };
    let record = EscrowRecord {
        commitment: request.commitment,
        creator: request.creator,
        beneficiary: request.beneficiary,
        token: request.token,
        amount: request.amount,
        deadline,
        counterparty: request.counterparty,
        state: EscrowState::Funded,
    };
    Ok(Plan { transfer, record })
}

/// Decides a claim at time `now` against `preimage`. `slot` is what the
/// store holds under the commitment. Nobody's authorization is asked for:
/// knowing the secret is what entitles.
pub fn claim(slot: Option<&EscrowRecord>, now: u64, custody: Identity, preimage: &[u8; 32]) -> (result:
    Result<Plan, HtlcError>)
    ensures
        match claim_fault(view_of(slot), now, preimage@) {
            Some(fault) => result == Err::<Plan, HtlcError>(fault),
            None => result is Ok && result.unwrap()@ == (PlanModel {
                transfer: payout(slot.unwrap()@, custody),
                record: finalized(slot.unwrap()@, EscrowState::Claimed),
            }),
        },
{
    let record = match slot {
        Some(record) => record,
        None => {
            return Err(HtlcError::NotFound);
        },
    };
    match record.state {
        EscrowState::Funded => {},
        _ => {
            return Err(HtlcError::AlreadyFinalized);
        },
    }
    if now >= record.deadline {
        return Err(HtlcError::Expired);
    }
    if !opens(&record.commitment, preimage) {
        return Err(HtlcError::BadPreimage);
    }
    let transfer = Transfer {
        token: record.token,
        from: custody,
        to: record.beneficiary,
        amount: record.amount,
    };
    let mut next = record.clone();
    next.state = EscrowState::Claimed;
    Ok(Plan { transfer, record: next })
}

/// Decides a refund at time `now`. `slot` is what the store holds under the
/// commitment. Nobody's authorization is asked for: after the deadline the
/// funds can only go back to the creator.
pub fn refund(slot: Option<&EscrowRecord>, now: u64, custody: Identity) -> (result: Result<
    Plan,
    HtlcError,
>)
    ensures
        match refund_fault(view_of(slot), now) {
            Some(fault) => result == Err::<Plan, HtlcError>(fault),
            None => result is Ok && result.unwrap()@ == (PlanModel {
                transfer: restitution(slot.unwrap()@, custody),
                record: finalized(slot.unwrap()@, EscrowState::Refunded),
            }),
        },
{
    let record = match slot {
        Some(record) => record,
        None => {
            return Err(HtlcError::NotFound);
        },
    };
    match record.state {
        EscrowState::Funded => {},
        _ => {
            return Err(HtlcError::AlreadyFinalized);
        },
    }
    if now < record.deadline {
        return Err(HtlcError::NotYetExpired);
    }
    let transfer = Transfer {
        token: record.token,
        from: custody,
        to: record.creator,
        amount: record.amount,
    };
    let mut next = record.clone();
    next.state = EscrowState::Refunded;
    Ok(Plan { transfer, record: next })
}

/// What a slot of the store holds, as a mathematical value.
pub open spec fn view_of(slot: Option<&EscrowRecord>) -> Option<RecordModel> {
    match slot {
        Some(record) => Some(record@),
        None => None,
    }
}

} // verus!
