//! An escrow ledger: funds deposited by a payer are earmarked for a payee and
//! later released to the payee or refunded to the payer, under the authority of
//! a single controller fixed at bootstrap.
//!
//! The crate holds the core state machine: the payment record model, its status
//! transitions, the allocation of strictly increasing payment identifiers, and
//! the access-control gate on every settlement. The surrounding runtime
//! (caller-identity resolution, the clock, fund custody, and the event sink)
//! stays outside: callers pass the resolved identity, the timestamp and the
//! deposited amount in as plain values, and every terminal transition hands
//! back the fund-transfer instruction the custodian must carry out.

pub mod laws;
pub mod ledger;
pub mod types;

pub use ledger::OpenClawPayments;
pub use types::EscrowError;
pub use types::FundTransfer;
pub use types::Identity;
pub use types::Payment;
pub use types::PaymentStatus;
