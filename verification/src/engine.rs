//! The escrow engine: the record store together with the three transitions
//! `create`, `claim` and `refund`.
//!
//! Each transition is one whole transaction of the hosting ledger. The host
//! reports what only it can know (the time, whether the creator authorized
//! the call, whether the token contract makes the transfer) and the engine
//! answers with the transfer that was made, or with the fault. A transition
//! that fails changes nothing.

use vstd::prelude::*;
use crate::record::{
    CreateRequest, EscrowRecord, EscrowState, HtlcError, Identity, RecordModel, RequestModel,
    Transfer,
};
use crate::store::{
    distinct, holds, lookup, lookup_after_push, lookup_after_update, position, RecordStore,
};
use crate::transition::{
    claim_fault, create_fault, deposit, finalized, funded, payout, refund_fault, restitution,
};

verus! {

/// What the hosting ledger reports to one transition.
#[derive(Clone, Copy, Debug, PartialEq, Eq)]
pub struct Host {
    /// The ledger's clock, in seconds.
    pub now: u64,
    /// Whether the creator named in the call has authorized it. Only
    /// `create` asks.
    pub authorized: bool,
    /// Whether the token contract makes the transfer that the transition
    /// asks for.
    pub transfer_accepted: bool,
}

/// The engine as a mathematical value: its records, oldest first, and the
/// identity under which it holds funds.
#[verifier::ext_equal]
pub struct EngineModel {
    pub records: Seq<RecordModel>,
    pub custody: Identity,
}

/// An engine without records.
pub open spec fn empty(custody: Identity) -> EngineModel {
    EngineModel { records: Seq::empty(), custody }
}

/// No two records share a commitment, and every record locks a positive
/// amount.
pub open spec fn well_formed(engine: EngineModel) -> bool {
    &&& distinct(engine.records)
    &&& forall|i: int| 0 <= i < engine.records.len() ==> (#[trigger] engine.records[i]).amount > 0
}

/// Why `create` fails, if it does: for a fault of the request, or because
/// the token contract does not take the funds from the creator.
pub open spec fn create_fails(engine: EngineModel, host: Host, request: RequestModel) -> Option<
    HtlcError,
> {
    match create_fault(
        host.now,
        host.authorized,
        holds(engine.records, request.commitment),
        request,
    ) {
        Some(fault) => Some(fault),
        None => if host.transfer_accepted {
            None
        } else {
            Some(HtlcError::TokenTransferFailed)
        },
    }
}

/// What `create` returns: the deposit that was made, or the fault.
pub open spec fn create_result(engine: EngineModel, host: Host, request: RequestModel) -> Result<
    Transfer,
    HtlcError,
> {
    match create_fails(engine, host, request) {
        Some(fault) => Err(fault),
        None => Ok(deposit(request, engine.custody)),
    }
}

/// The engine after `create`: with one more record, funded, or unchanged.
pub open spec fn after_create(engine: EngineModel, host: Host, request: RequestModel) -> EngineModel {
    if create_fails(engine, host, request) is None {
        EngineModel { records: engine.records.push(funded(request, host.now)), ..engine }
    } else {
        engine
    }
}

/// Why `claim` fails, if it does: for a fault of the call, or because the
/// token contract does not pay the beneficiary.
pub open spec fn claim_fails(
    engine: EngineModel,
    host: Host,
    commitment: Seq<u8>,
    preimage: Seq<u8>,
) -> Option<HtlcError> {
    match claim_fault(lookup(engine.records, commitment), host.now, preimage) {
        Some(fault) => Some(fault),
        None => if host.transfer_accepted {
            None
        } else {
            Some(HtlcError::TokenTransferFailed)
        },
    }
}

/// What `claim` returns: the payout that was made, or the fault.
pub open spec fn claim_result(
    engine: EngineModel,
    host: Host,
    commitment: Seq<u8>,
    preimage: Seq<u8>,
) -> Result<Transfer, HtlcError> {
    match claim_fails(engine, host, commitment, preimage) {
        Some(fault) => Err(fault),
        None => Ok(payout(lookup(engine.records, commitment).unwrap(), engine.custody)),
    }
}

/// The engine after `claim`: with the record claimed, or unchanged.
pub open spec fn after_claim(
    engine: EngineModel,
    host: Host,
    commitment: Seq<u8>,
    preimage: Seq<u8>,
) -> EngineModel {
    if claim_fails(engine, host, commitment, preimage) is None {
        EngineModel {
            records: engine.records.update(
                position(engine.records, commitment),
                finalized(lookup(engine.records, commitment).unwrap(), EscrowState::Claimed),
            ),
            ..engine
        }
    } else {
        engine
    }
}

/// Why `refund` fails, if it does: for a fault of the call, or because the
/// token contract does not pay the creator back.
pub open spec fn refund_fails(engine: EngineModel, host: Host, commitment: Seq<u8>) -> Option<
    HtlcError,
> {
    match refund_fault(lookup(engine.records, commitment), host.now) {
        Some(fault) => Some(fault),
        None => if host.transfer_accepted {
            None
        } else {
            Some(HtlcError::TokenTransferFailed)
        },
    }
}

/// What `refund` returns: the restitution that was made, or the fault.
pub open spec fn refund_result(engine: EngineModel, host: Host, commitment: Seq<u8>) -> Result<
    Transfer,
    HtlcError,
> {
    match refund_fails(engine, host, commitment) {
        Some(fault) => Err(fault),
        None => Ok(restitution(lookup(engine.records, commitment).unwrap(), engine.custody)),
    }
}

/// The engine after `refund`: with the record refunded, or unchanged.
pub open spec fn after_refund(engine: EngineModel, host: Host, commitment: Seq<u8>) -> EngineModel {
    if refund_fails(engine, host, commitment) is None {
        EngineModel {
            records: engine.records.update(
                position(engine.records, commitment),
                finalized(lookup(engine.records, commitment).unwrap(), EscrowState::Refunded),
            ),
            ..engine
        }
    } else {
        engine
    }
}

/// The escrow engine of one ledger contract.
pub struct Engine {
    store: RecordStore,
    custody: Identity,
}

impl View for Engine {
    type V = EngineModel;

    closed spec fn view(&self) -> EngineModel {
        EngineModel { records: self.store@, custody: self.custody }
    }
}

impl Engine {
    /// The engine's records are as `well_formed` asks.
    pub open spec fn wf(&self) -> bool {
        well_formed(self@)
    }

    /// An engine without records, which holds funds under `custody`.
    pub fn new(custody: Identity) -> (engine: Engine)
        ensures
            engine.wf(),
            engine@ == empty(custody),
    {
        Engine { store: RecordStore::new(), custody }
    }

    /// The identity under which the engine holds funds.
    pub fn custody(&self) -> (custody: Identity)
        ensures
            custody == self@.custody,
    {
        self.custody
    }

    /// How many escrows were ever created.
    pub fn len(&self) -> (count: usize)
        ensures
            count == self@.records.len(),
    {
        self.store.len()
    }

    /// Reads the record of the escrow with the commitment `commitment`.
    /// Fails with `NotFound` where none was ever created.
    pub fn get(&self, commitment: &[u8; 32]) -> (result: Result<&EscrowRecord, HtlcError>)
        requires
            self.wf(),
        ensures
            match result {
                Ok(record) => lookup(self@.records, commitment@) == Some(record@),
                Err(fault) => fault == HtlcError::NotFound && lookup(
                    self@.records,
                    commitment@,
                ) is None,
            },
    {
        self.store.get(commitment)
    }

    /// Opens an escrow: takes `request.amount` of `request.token` from the
    /// creator into custody and writes a funded record whose deadline is
    /// `host.now + request.lock_duration`.
    pub fn create(&mut self, host: &Host, request: CreateRequest) -> (result: Result<
        Transfer,
        HtlcError,
    >)
        requires
            old(self).wf(),
        ensures
            final(self).wf(),
            result == create_result(old(self)@, *host, request@),
            final(self)@ == after_create(old(self)@, *host, request@),
    {
        let ghost asked = request@;
        let occupied = self.store.contains(&request.commitment);
        let plan = crate::transition::create(
            host.now,
            host.authorized,
            occupied,
            self.custody,
            request,
        )?;
        let transfer = plan.transfer;
        let record = plan.settle(host.transfer_accepted)?;
        proof {
            lookup_after_push(self@.records, record@, asked.commitment);
        }
        match self.store.put_new(record) {
            Ok(()) => Ok(transfer),
            Err(fault) => Err(fault),
        }
    }

    /// Claims an escrow against the secret `preimage`: pays the locked
    /// amount out of custody to the beneficiary and marks the record
    /// claimed. Anyone may call.
    pub fn claim(&mut self, host: &Host, commitment: &[u8; 32], preimage: &[u8; 32]) -> (result:
        Result<Transfer, HtlcError>)
        requires
            old(self).wf(),
        ensures
            final(self).wf(),
            result == claim_result(old(self)@, *host, commitment@, preimage@),
            final(self)@ == after_claim(old(self)@, *host, commitment@, preimage@),
    {
        let plan = crate::transition::claim(
            self.store.find(commitment),
            host.now,
            self.custody,
            preimage,
        )?;
        let transfer = plan.transfer;
        let record = plan.settle(host.transfer_accepted)?;
        proof {
            lookup_after_update(
                self@.records,
                position(self@.records, commitment@),
                record@,
                commitment@,
            );
        }
        match self.store.update(record) {
            Ok(()) => Ok(transfer),
            Err(fault) => Err(fault),
        }
    }

    /// Refunds an escrow whose deadline has come: pays the locked amount out
    /// of custody back to the creator and marks the record refunded. Anyone
    /// may call.
    pub fn refund(&mut self, host: &Host, commitment: &[u8; 32]) -> (result: Result<
        Transfer,
        HtlcError,
    >)
        requires
            old(self).wf(),
        ensures
            final(self).wf(),
            result == refund_result(old(self)@, *host, commitment@),
            final(self)@ == after_refund(old(self)@, *host, commitment@),
    {
        let plan = crate::transition::refund(
            self.store.find(commitment),
            host.now,
            self.custody,
        )?;
        let transfer = plan.transfer;
        let record = plan.settle(host.transfer_accepted)?;
        proof {
            lookup_after_update(
                self@.records,
                position(self@.records, commitment@),
                record@,
                commitment@,
            );
        }
        match self.store.update(record) {
            Ok(()) => Ok(transfer),
            Err(fault) => Err(fault),
        }
    }
}

} // verus!
