//! The data of an escrow: who takes part, what is locked, until when, and in
//! which state the escrow is.

use vstd::prelude::*;

verus! {

/// Whether an identity is an account or a contract on the ledger.
#[derive(Clone, Copy, Debug, PartialEq, Eq, Hash)]
pub enum IdentityKind {
    Account,
    Contract,
}

/// A principal or a token contract on the local ledger, by the 32-byte key
/// under which the ledger knows it. The engine never looks inside: it only
/// hands identities on to the token contract.
#[derive(Clone, Copy, Debug, PartialEq, Eq, Hash)]
pub struct Identity {
    pub kind: IdentityKind,
    pub key: [u8; 32],
}

/// The lifecycle of an escrow. `Funded` is where every escrow starts;
/// `Claimed` and `Refunded` are final.
#[derive(Clone, Copy, Debug, PartialEq, Eq)]
pub enum EscrowState {
    Funded,
    Claimed,
    Refunded,
}

/// Why a transition was refused.
#[derive(Clone, Copy, Debug, PartialEq, Eq)]
pub enum HtlcError {
    /// The creator has not authorized the call.
    Unauthorized,
    /// The amount to lock is zero or negative.
    InvalidAmount,
    /// The lock lasts zero seconds, or ends after the last second the clock
    /// can show.
    InvalidDeadline,
    /// An escrow with this commitment was created before.
    AlreadyExists,
    /// No escrow has this commitment.
    NotFound,
    /// The escrow was claimed or refunded before.
    AlreadyFinalized,
    /// A claim came at or after the deadline.
    Expired,
    /// A refund came before the deadline.
    NotYetExpired,
    /// The preimage does not hash to the commitment.
    BadPreimage,
    /// The token contract refused to move the funds.
    TokenTransferFailed,
}

/// Where the mirrored escrow lives on the other chain. These are hints for
/// whoever watches both chains; no rule of the engine reads them.
#[derive(Debug, PartialEq, Eq)]
pub struct Counterparty {
    /// The 20-byte address on the other chain.
    pub addr: [u8; 20],
    /// The token on the other chain, as that chain names it.
    pub token: Vec<u8>,
    /// The amount locked on the other chain.
    pub amount: u128,
}

/// A `Counterparty` as a mathematical value.
pub struct CounterpartyModel {
    pub addr: Seq<u8>,
    pub token: Seq<u8>,
    pub amount: u128,
}

impl View for Counterparty {
    type V = CounterpartyModel;

    open spec fn view(&self) -> CounterpartyModel {
        CounterpartyModel { addr: self.addr@, token: self.token@, amount: self.amount }
    }
}

impl Clone for Counterparty {
    fn clone(&self) -> (copy: Self)
        ensures
            copy@ == self@,
    {
        let token = self.token.clone();
        assert(token@ =~= self.token@);
        Counterparty { addr: self.addr, token, amount: self.amount }
    }
}

/// One escrow, as the store keeps it under its commitment.
#[derive(Debug, PartialEq, Eq)]
pub struct EscrowRecord {
    /// The SHA-256 digest of the secret; the key of the record.
    pub commitment: [u8; 32],
    /// Who funded the escrow, and who gets the funds back on refund.
    pub creator: Identity,
    /// Who gets the funds on claim.
    pub beneficiary: Identity,
    /// The contract of the token that is locked.
    pub token: Identity,
    /// How much is locked.
    pub amount: i128,
    /// The second from which claims are refused and refunds accepted.
    pub deadline: u64,
    /// Where the mirrored escrow lives.
    pub counterparty: Counterparty,
    /// Where the escrow stands in its lifecycle.
    pub state: EscrowState,
}

/// An `EscrowRecord` as a mathematical value.
pub struct RecordModel {
    pub commitment: Seq<u8>,
    pub creator: Identity,
    pub beneficiary: Identity,
    pub token: Identity,
    pub amount: i128,
    pub deadline: u64,
    pub counterparty: CounterpartyModel,
    pub state: EscrowState,
}

impl View for EscrowRecord {
    type V = RecordModel;

    open spec fn view(&self) -> RecordModel {
        RecordModel {
            commitment: self.commitment@,
            creator: self.creator,
            beneficiary: self.beneficiary,
            token: self.token,
            amount: self.amount,
            deadline: self.deadline,
            counterparty: self.counterparty@,
            state: self.state,
        }
    }
}

impl Clone for EscrowRecord {
    fn clone(&self) -> (copy: Self)
        ensures
            copy@ == self@,
    {
        EscrowRecord {
            commitment: self.commitment,
            creator: self.creator,
            beneficiary: self.beneficiary,
            token: self.token,
            amount: self.amount,
            deadline: self.deadline,
            counterparty: self.counterparty.clone(),
            state: self.state,
        }
    }
}

/// What a creator asks for when opening an escrow.
#[derive(Debug, PartialEq, Eq)]
pub struct CreateRequest {
    /// Who funds the escrow.
    pub creator: Identity,
    /// Who may receive the funds against the secret.
    pub beneficiary: Identity,
    /// The SHA-256 digest of the secret.
    pub commitment: [u8; 32],
    /// For how many seconds from now claims are accepted.
    pub lock_duration: u64,
    /// The contract of the token to lock.
    pub token: Identity,
    /// How much to lock.
    pub amount: i128,
    /// Where the mirrored escrow lives.
    pub counterparty: Counterparty,
}

/// A `CreateRequest` as a mathematical value.
pub struct RequestModel {
    pub creator: Identity,
    pub beneficiary: Identity,
    pub commitment: Seq<u8>,
    pub lock_duration: u64,
    pub token: Identity,
    pub amount: i128,
    pub counterparty: CounterpartyModel,
}

impl View for CreateRequest {
    type V = RequestModel;

    open spec fn view(&self) -> RequestModel {
        RequestModel {
            creator: self.creator,
            beneficiary: self.beneficiary,
            commitment: self.commitment@,
            lock_duration: self.lock_duration,
            token: self.token,
            amount: self.amount,
            counterparty: self.counterparty@,
        }
    }
}

/// One movement of tokens that the engine asks the token contract to make.
#[derive(Clone, Copy, Debug, PartialEq, Eq)]
pub struct Transfer {
    /// The contract of the token to move.
    pub token: Identity,
    /// Whose balance goes down.
    pub from: Identity,
    /// Whose balance goes up.
    pub to: Identity,
    /// By how much.
    pub amount: i128,
}

} // verus!
