//! The escrow state machine: a ledger of payment records keyed by strictly
//! increasing identifiers, guarded by a single controller identity fixed at
//! bootstrap.

use crate::types::EscrowError;
use crate::types::FundTransfer;
use crate::types::Identity;
use crate::types::Payment;
use crate::types::PaymentStatus;
use vstd::prelude::*;

verus! {

/// The whole escrow state. Records are stored in creation order, so the record
/// with identifier `id` (identifiers start at 1) sits at index `id - 1`;
/// identifiers are therefore never reused and never reissued.
pub struct OpenClawPayments {
    /// The sole controller, set at bootstrap and never changed.
    pub owner: Identity,
    /// All records ever created, in creation order. Records are never deleted.
    pub payments: Vec<Payment>,
}

impl OpenClawPayments {
    /// The controller identity.
    pub open spec fn spec_owner(self) -> Identity {
        self.owner
    }

    /// The identifier the next successful deposit will receive.
    pub open spec fn next_id(self) -> int {
        self.payments@.len() as int + 1
    }

    /// Whether a record was ever created under `id`.
    pub open spec fn has_payment(self, id: u64) -> bool {
        1 <= id && id <= self.payments@.len()
    }

    /// The record stored under `id`.
    pub open spec fn payment(self, id: u64) -> Payment
        recommends
            self.has_payment(id),
    {
        self.payments@[id - 1]
    }

    /// Every stored record is well formed: positive amount, real payee.
    /// Established at bootstrap and preserved by every operation.
    pub open spec fn wf(self) -> bool {
        forall|i: int| 0 <= i < self.payments@.len() ==> (#[trigger] self.payments@[i]).wf()
    }

    /// When a settlement (release or refund) of record `id`, attempted by
    /// `caller`, may go through: the caller is the controller, the record
    /// exists, and it is still in the `Deposited` status. `release` and
    /// `refund` succeed exactly when this holds.
    pub open spec fn settlement_allowed(self, caller: Identity, id: u64) -> bool {
        &&& caller == self.spec_owner()
        &&& self.has_payment(id)
        &&& self.payment(id).status == PaymentStatus::Deposited
    }

    /// Bootstrap: the invoking identity becomes the sole controller, the ledger
    /// starts empty, and the first deposit will receive identifier 1.
    pub fn init(owner: Identity) -> (r: OpenClawPayments)
        ensures
            r.wf(),
            r.spec_owner() == owner,
            r.payments@.len() == 0,
            r.next_id() == 1,
    {
        OpenClawPayments { owner, payments: Vec::new() }
    }

    /// The access gate: succeeds exactly when `caller` is the controller.
    pub fn require_owner(&self, caller: Identity) -> (r: Result<(), EscrowError>)
        ensures
            r is Ok <==> caller == self.spec_owner(),
            r is Err ==> r == Err::<(), EscrowError>(EscrowError::Unauthorized),
    {
        if caller == self.owner {
            Ok(())
        } else {
            Err(EscrowError::Unauthorized)
        }
    }

    /// Create a new escrow record. The runtime has already taken `amount` into
    /// custody from `payer` and resolved `now` from its clock; the core only
    /// validates and records. A zero amount is rejected as `InvalidAmount` and
    /// a null payee as `InvalidPayee` (in that order); neither failure issues
    /// an identifier or stores anything. On success the record is stored in
    /// status `Deposited` under a fresh identifier, strictly greater than every
    /// identifier issued before, and that identifier is returned.
    pub fn deposit(
        &mut self,
        payer: Identity,
        payee: Identity,
        amount: u128,
        task_id: Vec<u8>,
        now: u64,
    ) -> (r: Result<u64, EscrowError>)
        requires
            old(self).wf(),
            old(self).payments@.len() < u64::MAX,
        ensures
            final(self).wf(),
            final(self).spec_owner() == old(self).spec_owner(),
            amount == 0 ==> r == Err::<u64, EscrowError>(EscrowError::InvalidAmount)
                && *final(self) == *old(self),
            amount > 0 && payee.spec_is_null() ==> r == Err::<u64, EscrowError>(
                EscrowError::InvalidPayee,
            ) && *final(self) == *old(self),
            amount > 0 && !payee.spec_is_null() ==> {
                &&& r == Ok::<u64, EscrowError>(old(self).next_id() as u64)
                &&& final(self).payments@ == old(self).payments@.push(
                    (Payment {
                        payer,
                        payee,
                        amount,
                        task_id,
                        status: PaymentStatus::Deposited,
                        created_at: now,
                    }),
                )
                &&& final(self).next_id() == old(self).next_id() + 1
                &&& forall|j: u64| old(self).has_payment(j) ==> j < old(self).next_id()
            },
    {
        if amount == 0 {
            return Err(EscrowError::InvalidAmount);
        }
        if payee.is_null() {
            return Err(EscrowError::InvalidPayee);
        }

        let id: u64 = self.payments.len() as u64 + 1;
        self.payments.push(Payment {
            payer,
            payee,
            amount,
            task_id,
            status: PaymentStatus::Deposited,
            created_at: now,
        });
        Ok(id)
    }

    /// Release the escrowed funds of record `payment_id` to its payee. Only
    /// the controller may call this, and only while the record is still
    /// `Deposited`; the checks run in that order, so a non-controller is told
    /// `Unauthorized` whatever the record's status or existence. On success the
    /// record becomes `Released` — terminal, so a second settlement of the same
    /// record always fails — and the returned instruction tells the custodian
    /// to move the full amount to the payee. The custodian must carry it out
    /// atomically: if the transfer cannot complete, the runtime must discard
    /// the updated ledger state so that no record is marked `Released` while
    /// the funds never moved. Every failure leaves the ledger unchanged.
    pub fn release(&mut self, caller: Identity, payment_id: u64) -> (r: Result<
        FundTransfer,
        EscrowError,
    >)
        requires
            old(self).wf(),
        ensures
            final(self).wf(),
            final(self).spec_owner() == old(self).spec_owner(),
            final(self).payments@.len() == old(self).payments@.len(),
            r is Ok <==> old(self).settlement_allowed(caller, payment_id),
            r is Err ==> *final(self) == *old(self),
            caller != old(self).spec_owner() ==> r == Err::<FundTransfer, EscrowError>(
                EscrowError::Unauthorized,
            ),
            caller == old(self).spec_owner() && !old(self).has_payment(payment_id) ==> r == Err::<
                FundTransfer,
                EscrowError,
            >(EscrowError::NotFound),
            caller == old(self).spec_owner() && old(self).has_payment(payment_id) && old(
                self,
            ).payment(payment_id).status != PaymentStatus::Deposited ==> r == Err::<
                FundTransfer,
                EscrowError,
            >(EscrowError::InvalidTransition),
            r is Ok ==> {
                &&& r->Ok_0 == (FundTransfer {
                    payment_id,
                    to: old(self).payment(payment_id).payee,
                    amount: old(self).payment(payment_id).amount,
                })
                &&& final(self).payment(payment_id) == (Payment {
                    status: PaymentStatus::Released,
                    ..old(self).payment(payment_id)
                })
                &&& forall|j: u64|
                    old(self).has_payment(j) && j != payment_id ==> final(self).payment(j) == old(
                        self,
                    ).payment(j)
            },
    {
        if let Err(e) = self.require_owner(caller) {
            return Err(e);
        }
        if payment_id < 1 || payment_id > self.payments.len() as u64 {
            return Err(EscrowError::NotFound);
        }
        let idx: usize = (payment_id - 1) as usize;
        if self.payments[idx].status != PaymentStatus::Deposited {
            return Err(EscrowError::InvalidTransition);
        }

        let to = self.payments[idx].payee;
        let amount = self.payments[idx].amount;
        self.payments[idx].status = PaymentStatus::Released;
        Ok(FundTransfer { payment_id, to, amount })
    }

    /// Refund the escrowed funds of record `payment_id` to its payer: the
    /// mirror image of `release`, with the same gate, the same checks in the
    /// same order, and the same atomicity demand on the custodian. On success
    /// the record becomes `Refunded` — terminal — and the returned instruction
    /// moves the full amount back to the payer.
    pub fn refund(&mut self, caller: Identity, payment_id: u64) -> (r: Result<
        FundTransfer,
        EscrowError,
    >)
        requires
            old(self).wf(),
        ensures
            final(self).wf(),
            final(self).spec_owner() == old(self).spec_owner(),
            final(self).payments@.len() == old(self).payments@.len(),
            r is Ok <==> old(self).settlement_allowed(caller, payment_id),
            r is Err ==> *final(self) == *old(self),
            caller != old(self).spec_owner() ==> r == Err::<FundTransfer, EscrowError>(
                EscrowError::Unauthorized,
            ),
            caller == old(self).spec_owner() && !old(self).has_payment(payment_id) ==> r == Err::<
                FundTransfer,
                EscrowError,
            >(EscrowError::NotFound),
            caller == old(self).spec_owner() && old(self).has_payment(payment_id) && old(
                self,
            ).payment(payment_id).status != PaymentStatus::Deposited ==> r == Err::<
                FundTransfer,
                EscrowError,
            >(EscrowError::InvalidTransition),
            r is Ok ==> {
                &&& r->Ok_0 == (FundTransfer {
                    payment_id,
                    to: old(self).payment(payment_id).payer,
                    amount: old(self).payment(payment_id).amount,
                })
                &&& final(self).payment(payment_id) == (Payment {
                    status: PaymentStatus::Refunded,
                    ..old(self).payment(payment_id)
                })
                &&& forall|j: u64|
                    old(self).has_payment(j) && j != payment_id ==> final(self).payment(j) == old(
                        self,
                    ).payment(j)
            },
    {
        if let Err(e) = self.require_owner(caller) {
            return Err(e);
        }
        if payment_id < 1 || payment_id > self.payments.len() as u64 {
            return Err(EscrowError::NotFound);
        }
        let idx: usize = (payment_id - 1) as usize;
        if self.payments[idx].status != PaymentStatus::Deposited {
            return Err(EscrowError::InvalidTransition);
        }

        let to = self.payments[idx].payer;
        let amount = self.payments[idx].amount;
        self.payments[idx].status = PaymentStatus::Refunded;
        Ok(FundTransfer { payment_id, to, amount })
    }

    /// The record stored under `payment_id`, or `NotFound` if no deposit ever
    /// received that identifier. Read-only and open to anyone; the returned
    /// record always reflects the latest committed status.
    pub fn get_payment(&self, payment_id: u64) -> (r: Result<&Payment, EscrowError>)
        ensures
            match r {
                Ok(p) => self.has_payment(payment_id) && *p == self.payment(payment_id),
                Err(e) => !self.has_payment(payment_id) && e == EscrowError::NotFound,
            },
    {
        if payment_id < 1 || payment_id > self.payments.len() as u64 {
            return Err(EscrowError::NotFound);
        }
        let idx: usize = (payment_id - 1) as usize;
        Ok(&self.payments[idx])
    }

    /// How many records the ledger holds; the next deposit will receive this
    /// count plus one as its identifier.
    pub fn payment_count(&self) -> (r: usize)
        ensures
            r == self.payments@.len(),
    {
        self.payments.len()
    }

    /// The controller identity, for external observers.
    pub fn get_owner(&self) -> (r: Identity)
        ensures
            r == self.spec_owner(),
    {
        self.owner
    }
}

} // verus!
