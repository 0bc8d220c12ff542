//! The plain data the escrow core works on: identities, payment records, the
//! status enumeration, error kinds, and the fund-transfer instruction that a
//! terminal transition hands back to the custodian.

use vstd::prelude::*;

verus! {

/// An account identity, as the surrounding runtime resolves it. The zero value
/// is the null identity: it names no real account and is never a valid payee.
#[derive(Clone, Copy, PartialEq, Eq, Structural, Debug)]
pub struct Identity {
    pub id: u64,
}

impl Identity {
    /// Whether this is the null identity.
    pub open spec fn spec_is_null(&self) -> bool {
        self.id == 0
    }

    /// Whether this is the null identity.
    #[verifier::when_used_as_spec(spec_is_null)]
    pub fn is_null(&self) -> (r: bool)
        ensures
            r == self.spec_is_null(),
    {
        self.id == 0
    }

    /// The null identity.
    pub fn null() -> (r: Identity)
        ensures
            r.spec_is_null(),
    {
        Identity { id: 0 }
    }
}

/// The lifecycle of a payment record. `Deposited` is the only initial status;
/// `Released` and `Refunded` are terminal: no transition leaves them.
#[derive(Clone, Copy, PartialEq, Eq, Structural, Debug)]
pub enum PaymentStatus {
    Deposited,
    Released,
    Refunded,
}

/// One escrow record. Every field but `status` is fixed at creation.
#[derive(Debug)]
pub struct Payment {
    /// The identity that deposited the funds.
    pub payer: Identity,
    /// The intended recipient; never the null identity.
    pub payee: Identity,
    /// The escrowed amount; always strictly positive.
    pub amount: u128,
    /// Caller-supplied correlation tag; its content is unconstrained.
    pub task_id: Vec<u8>,
    /// Current lifecycle status.
    pub status: PaymentStatus,
    /// Timestamp at creation, from the runtime's clock.
    pub created_at: u64,
}

impl Payment {
    /// What `deposit` establishes of every record it stores: a positive amount
    /// and a real payee.
    pub open spec fn wf(self) -> bool {
        &&& self.amount > 0
        &&& !self.payee.spec_is_null()
    }
}

/// Why an operation was rejected. Every failure is synchronous and leaves the
/// ledger exactly as it was.
#[derive(Clone, Copy, PartialEq, Eq, Structural, Debug)]
pub enum EscrowError {
    /// A deposit of zero.
    InvalidAmount,
    /// A deposit naming the null identity as payee.
    InvalidPayee,
    /// A settlement attempted by an identity other than the controller.
    Unauthorized,
    /// An identifier no record was ever created under.
    NotFound,
    /// A settlement attempted on a record that is already terminal.
    InvalidTransition,
}

/// The instruction a successful settlement hands back: the custodian must move
/// `amount` to `to`. It doubles as the notification payload for the event sink.
#[derive(Clone, Copy, PartialEq, Eq, Structural, Debug)]
pub struct FundTransfer {
    /// The record being settled.
    pub payment_id: u64,
    /// The recipient: the payee on release, the payer on refund.
    pub to: Identity,
    /// The full escrowed amount.
    pub amount: u128,
}

} // verus!
