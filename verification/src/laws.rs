//! The ledger's global guarantees, stated once over the same model that the
//! operations' contracts use, and proved for every state.

use crate::ledger::OpenClawPayments;
use crate::types::Identity;
use crate::types::PaymentStatus;
use vstd::prelude::*;

verus! {

/// Identifier freshness: the identifier the next successful deposit will
/// return is strictly greater than the identifier of every record the ledger
/// already holds, and no record holds it yet. `deposit` returns exactly
/// `next_id()` and advances it by one, while `release` and `refund` keep the
/// record count, so successful deposits return strictly increasing
/// identifiers and no identifier is ever issued twice.
pub proof fn lemma_fresh_id_above_all_issued(e: OpenClawPayments)
    requires
        e.payments@.len() < u64::MAX,
    ensures
        forall|j: u64| e.has_payment(j) ==> j < e.next_id(),
        !e.has_payment(e.next_id() as u64),
{
}

/// Terminal statuses are final: once a record is `Released` or `Refunded`, no
/// settlement of it — release or refund, repeated or mixed, by anyone — can
/// succeed, since both succeed exactly when `settlement_allowed` holds.
pub proof fn lemma_terminal_records_are_final(e: OpenClawPayments, caller: Identity, id: u64)
    requires
        e.has_payment(id),
        e.payment(id).status != PaymentStatus::Deposited,
    ensures
        !e.settlement_allowed(caller, id),
{
}

/// Only the controller settles: a caller other than the bootstrap owner can
/// settle no record at all, whatever the record's status or existence.
pub proof fn lemma_only_controller_settles(e: OpenClawPayments, caller: Identity, id: u64)
    requires
        caller != e.spec_owner(),
    ensures
        !e.settlement_allowed(caller, id),
{
}

} // verus!
