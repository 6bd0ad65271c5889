//! The continuously linear vesting schedule.
//!
//! Vesting accrues nanosecond by nanosecond: past the cliff, the vested
//! amount is `total * elapsed / duration` with `elapsed` measured from
//! `start`, and the whole total once the window has elapsed. Revocation is
//! settled in two phases: `revoke` only computes the split and hands back the
//! transfer requests, and the grant is finalized by `callback_revoke` once
//! the host has issued them.

use vstd::arithmetic::div_mod::{
    lemma_div_is_ordered, lemma_div_pos_is_pos, lemma_fundamental_div_mod,
    lemma_hoist_over_denominator, lemma_mod_bound, lemma_multiply_divide_le,
};
use vstd::arithmetic::mul::{
    lemma_mul_inequality, lemma_mul_is_associative, lemma_mul_is_commutative,
    lemma_mul_is_distributive_add_other_way, lemma_mul_nonnegative, lemma_mul_upper_bound,
};
use vstd::prelude::*;

use crate::errors::VestingError;
use crate::transfer::{RevokeOutcome, TransferRequest};

verus! {

/// The grant record: the terms fixed at creation plus the claim and
/// revocation state. Once `is_active` is false the grant is terminal and
/// every mutating operation is rejected.
#[derive(Debug)]
pub struct Contract {
    /// Account with administrative rights: may revoke and reassign ownership.
    pub owner: String,
    /// Account entitled to the vested tokens.
    pub recipient: String,
    /// Account of the fungible-token contract holding the balance.
    pub token: String,
    /// Total amount ever vestable; zeroed when a revocation is finalized.
    pub amount: u128,
    /// Amount already paid out to the recipient.
    pub amount_claimed: u128,
    /// Instant (nanoseconds) at which vesting begins to accrue.
    pub start: u64,
    /// Length (nanoseconds) of the vesting window.
    pub duration: u64,
    /// Instant before which nothing is releasable.
    pub cliff: u64,
    /// Whether the owner may revoke the grant; fixed at creation.
    pub revocable: bool,
    /// False once a revocation has been finalized.
    pub is_active: bool,
}

/// Validation of the schedule terms at creation, in the order the checks are
/// made: the cliff must end strictly inside the window, the end of the window
/// must be representable, and it must lie strictly in the future.
pub open spec fn schedule_error(
    start: u64,
    duration: u64,
    cliff: u64,
    now: u64,
) -> Option<VestingError> {
    if cliff >= duration {
        Some(VestingError::InvalidSchedule)
    } else if start + duration > u64::MAX {
        Some(VestingError::ArithmeticOverflow)
    } else if start + duration <= now {
        Some(VestingError::InvalidSchedule)
    } else {
        None
    }
}

impl Contract {
    /// Well-formedness of a grant record: the cliff never precedes the start,
    /// and while the grant is active the window is nonempty, the cliff ends
    /// strictly inside it, its end is representable, and no more has been
    /// claimed than the total.
    pub open spec fn wf(self) -> bool {
        &&& self.start <= self.cliff
        &&& (self.is_active ==> {
            &&& self.duration > 0
            &&& self.cliff - self.start < self.duration
            &&& self.start + self.duration <= u64::MAX
            &&& self.amount_claimed <= self.amount
        })
    }

    /// Amount vested at `now`: nothing before the cliff, everything once the
    /// window has elapsed, and otherwise the linear interpolation
    /// `total * elapsed / duration` with `elapsed` measured from `start`.
    pub open spec fn vested_amount(self, now: u64) -> int {
        if now < self.cliff {
            0
        } else if now - self.start >= self.duration {
            self.amount as int
        } else {
            (self.amount * (now - self.start)) / (self.duration as int)
        }
    }

    /// The reason a claim by `caller` at `now` is rejected, or `None` when it
    /// succeeds, with the checks in order: identity, liveness, books.
    pub open spec fn claim_error(self, caller: Seq<char>, now: u64) -> Option<VestingError> {
        if caller != self.recipient@ {
            Some(VestingError::Unauthorized)
        } else if !self.is_active {
            Some(VestingError::GrantInactive)
        } else if self.vested_amount(now) < self.amount_claimed {
            Some(VestingError::ArithmeticOverflow)
        } else if self.vested_amount(now) == self.amount_claimed {
            Some(VestingError::NothingToClaim)
        } else {
            None
        }
    }

    /// The reason a revocation by `caller` with `deposit` attached at `now`
    /// is rejected, or `None` when it succeeds. The one-token deposit is the
    /// explicit confirmation signal a privileged call must carry.
    pub open spec fn revoke_error(
        self,
        caller: Seq<char>,
        deposit: u128,
        now: u64,
    ) -> Option<VestingError> {
        if caller != self.owner@ {
            Some(VestingError::Unauthorized)
        } else if deposit != 1 {
            Some(VestingError::Unauthorized)
        } else if !self.revocable {
            Some(VestingError::NotRevocable)
        } else if !self.is_active {
            Some(VestingError::GrantInactive)
        } else if self.vested_amount(now) < self.amount_claimed {
            Some(VestingError::ArithmeticOverflow)
        } else {
            None
        }
    }

    /// The reason a sweep by `caller` is rejected, or `None` when it is
    /// allowed: only the owner may sweep, and only once the grant is no
    /// longer active.
    pub open spec fn sweep_error(self, caller: Seq<char>) -> Option<VestingError> {
        if caller != self.owner@ {
            Some(VestingError::Unauthorized)
        } else if self.is_active {
            Some(VestingError::GrantStillActive)
        } else {
            None
        }
    }

    /// Create a grant from its terms, validating the schedule against the
    /// current time `now`. The stored cliff instant is `start` plus the given
    /// cliff length.
    pub fn new(
        owner: String,
        recipient: String,
        token: String,
        amount: u128,
        start: u64,
        duration: u64,
        cliff: u64,
        revocable: bool,
        now: u64,
    ) -> (r: Result<Contract, VestingError>)
        ensures
            match r {
                Ok(c) => {
                    &&& schedule_error(start, duration, cliff, now) is None
                    &&& c.wf()
                    &&& c.owner@ == owner@
                    &&& c.recipient@ == recipient@
                    &&& c.token@ == token@
                    &&& c.amount == amount
                    &&& c.amount_claimed == 0
                    &&& c.start == start
                    &&& c.duration == duration
                    &&& c.cliff == start + cliff
                    &&& c.revocable == revocable
                    &&& c.is_active
                },
                Err(e) => schedule_error(start, duration, cliff, now) == Some(e),
            },
    {
        if !(cliff < duration) {
            return Err(VestingError::InvalidSchedule);
        }
        let end = match start.checked_add(duration) {
            Some(end) => end,
            None => {
                return Err(VestingError::ArithmeticOverflow);
            },
        };
        if !(end > now) {
            return Err(VestingError::InvalidSchedule);
        }
        Ok(
            Contract {
                owner,
                recipient,
                token,
                amount,
                amount_claimed: 0,
                start,
                duration,
                cliff: start + cliff,
                revocable,
                is_active: true,
            },
        )
    }

    /// Account entitled to the vested tokens.
    pub fn recipient(&self) -> (r: String)
        ensures
            r == self.recipient,
    {
        self.recipient.clone()
    }

    /// Total amount ever vestable.
    pub fn amount(&self) -> (r: u128)
        ensures
            r == self.amount,
    {
        self.amount
    }

    /// Account of the fungible-token contract holding the balance.
    pub fn token(&self) -> (r: String)
        ensures
            r == self.token,
    {
        self.token.clone()
    }

    /// Amount already paid out to the recipient.
    pub fn amount_claimed(&self) -> (r: u128)
        ensures
            r == self.amount_claimed,
    {
        self.amount_claimed
    }

    /// Instant before which nothing is releasable.
    pub fn cliff(&self) -> (r: u64)
        ensures
            r == self.cliff,
    {
        self.cliff
    }

    /// Instant at which vesting begins to accrue.
    pub fn start(&self) -> (r: u64)
        ensures
            r == self.start,
    {
        self.start
    }

    /// Length of the vesting window.
    pub fn duration(&self) -> (r: u64)
        ensures
            r == self.duration,
    {
        self.duration
    }

    /// Whether the owner may revoke the grant.
    pub fn revocable(&self) -> (r: bool)
        ensures
            r == self.revocable,
    {
        self.revocable
    }

    /// Whether the grant is still active.
    pub fn is_active(&self) -> (r: bool)
        ensures
            r == self.is_active,
    {
        self.is_active
    }

    /// Account with administrative rights.
    pub fn get_owner(&self) -> (r: String)
        ensures
            r == self.owner,
    {
        self.owner.clone()
    }

    /// Reassign ownership; only the current owner may do so.
    pub fn set_owner(&mut self, caller: &String, new_owner: String) -> (r: Result<
        (),
        VestingError,
    >)
        ensures
            match r {
                Ok(_) => {
                    &&& caller@ == old(self).owner@
                    &&& final(self).owner == new_owner
                    &&& *final(self) == (Contract { owner: final(self).owner, ..*old(self) })
                },
                Err(e) => {
                    &&& *final(self) == *old(self)
                    &&& e == VestingError::Unauthorized
                    &&& caller@ != old(self).owner@
                },
            },
    {
        if !(*caller == self.owner) {
            return Err(VestingError::Unauthorized);
        }
        self.owner = new_owner;
        Ok(())
    }

    /// Amount vested at `now`, as a pure function of the grant terms.
    pub fn calculate_amount_vested(&self, now: u64) -> (r: u128)
        requires
            self.wf(),
        ensures
            r == self.vested_amount(now),
            r <= self.amount,
    {
        if now < self.cliff {
            return 0;
        }
        let elapsed_time: u64 = now - self.start;
        if elapsed_time >= self.duration {
            return self.amount;
        }
        let d: u128 = self.duration as u128;
        let e: u128 = elapsed_time as u128;
        let q: u128 = self.amount / d;
        let rem: u128 = self.amount % d;
        proof {
            let ai = self.amount as int;
            let di = d as int;
            let ei = e as int;
            lemma_fundamental_div_mod(ai, di);
            lemma_mod_bound(ai, di);
            lemma_div_pos_is_pos(ai, di);
            lemma_mul_upper_bound(
                rem as int,
                u64::MAX as int,
                ei,
                u64::MAX as int,
            );
            lemma_mul_nonnegative(rem as int, ei);
            lemma_div_pos_is_pos((rem as int) * ei, di);
            lemma_mul_nonnegative(q as int, ei);
            // a * e == (q * e) * d + rem * e
            lemma_mul_is_distributive_add_other_way(ei, di * (q as int), rem as int);
            lemma_mul_is_associative(di, q as int, ei);
            lemma_mul_is_commutative(di, (q as int) * ei);
            // hence q * e + (rem * e) / d == (a * e) / d
            lemma_hoist_over_denominator((rem as int) * ei, (q as int) * ei, d as nat);
            // and (a * e) / d <= a, since a * e <= d * a
            lemma_mul_inequality(ei, di, ai);
            lemma_mul_is_commutative(ei, ai);
            lemma_mul_is_commutative(di, ai);
            lemma_multiply_divide_le(ai * ei, di, ai);
        }
        q * e + (rem * e) / d
    }

    /// Vested-but-unclaimed amount at `now`; `ArithmeticOverflow` in the
    /// defect case where the books record more claimed than vested.
    pub fn releasable_amount(&self, now: u64) -> (r: Result<u128, VestingError>)
        requires
            self.wf(),
        ensures
            match r {
                Ok(v) => {
                    &&& self.amount_claimed <= self.vested_amount(now)
                    &&& v == self.vested_amount(now) - self.amount_claimed
                },
                Err(e) => {
                    &&& e == VestingError::ArithmeticOverflow
                    &&& self.vested_amount(now) < self.amount_claimed
                },
            },
    {
        let vested = self.calculate_amount_vested(now);
        match vested.checked_sub(self.amount_claimed) {
            Some(v) => Ok(v),
            None => Err(VestingError::ArithmeticOverflow),
        }
    }

    /// Claim the releasable amount for the recipient: the books are updated
    /// first, then the transfer request for exactly that delta is handed back
    /// for the host to issue. On any error the grant is unchanged.
    pub fn claim_vested(&mut self, caller: &String, now: u64) -> (r: Result<
        TransferRequest,
        VestingError,
    >)
        requires
            old(self).wf(),
        ensures
            final(self).wf(),
            match r {
                Ok(t) => {
                    &&& old(self).claim_error(caller@, now) is None
                    &&& t.token@ == old(self).token@
                    &&& t.receiver@ == old(self).recipient@
                    &&& t.memo is None
                    &&& t.amount == old(self).vested_amount(now) - old(self).amount_claimed
                    &&& t.amount > 0
                    &&& final(self).amount_claimed == old(self).vested_amount(now)
                    &&& *final(self) == (Contract {
                        amount_claimed: final(self).amount_claimed,
                        ..*old(self)
                    })
                },
                Err(e) => {
                    &&& *final(self) == *old(self)
                    &&& old(self).claim_error(caller@, now) == Some(e)
                },
            },
    {
        if !(*caller == self.recipient) {
            return Err(VestingError::Unauthorized);
        }
        if !self.is_active {
            return Err(VestingError::GrantInactive);
        }
        let releasable = match self.releasable_amount(now) {
            Ok(v) => v,
            Err(e) => {
                return Err(e);
            },
        };
        if releasable == 0 {
            return Err(VestingError::NothingToClaim);
        }
        proof {
            lemma_vested_bounds(*self, now);
        }
        self.amount_claimed = self.amount_claimed + releasable;
        Ok(
            TransferRequest {
                token: self.token.clone(),
                receiver: self.recipient.clone(),
                amount: releasable,
                memo: None,
            },
        )
    }

    /// Start a revocation: compute the split of the remaining balance and
    /// hand back the two transfer requests, the vested-but-unclaimed part to
    /// the grant's recipient and the unvested rest to the designated
    /// `recipient` address. The grant itself is not yet changed: it is
    /// finalized by [`Self::callback_revoke`] once the host has issued the
    /// requests, so the books are never closed before the payout was at
    /// least requested.
    pub fn revoke(&mut self, caller: &String, deposit: u128, recipient: &String, now: u64) -> (r:
        Result<RevokeOutcome, VestingError>)
        requires
            old(self).wf(),
        ensures
            final(self).wf(),
            *final(self) == *old(self),
            match r {
                Ok(o) => {
                    &&& old(self).revoke_error(caller@, deposit, now) is None
                    &&& o.payout.token@ == old(self).token@
                    &&& o.payout.receiver@ == old(self).recipient@
                    &&& o.payout.memo is None
                    &&& o.payout.amount == old(self).vested_amount(now) - old(self).amount_claimed
                    &&& o.refund.token@ == old(self).token@
                    &&& o.refund.receiver@ == recipient@
                    &&& o.refund.memo is None
                    &&& o.refund.amount == old(self).amount - old(self).vested_amount(now)
                    &&& o.payout.amount + o.refund.amount + old(self).amount_claimed == old(
                        self,
                    ).amount
                },
                Err(e) => old(self).revoke_error(caller@, deposit, now) == Some(e),
            },
    {
        if !(*caller == self.owner) {
            return Err(VestingError::Unauthorized);
        }
        if deposit != 1 {
            return Err(VestingError::Unauthorized);
        }
        if !self.revocable {
            return Err(VestingError::NotRevocable);
        }
        if !self.is_active {
            return Err(VestingError::GrantInactive);
        }
        let releasable = match self.releasable_amount(now) {
            Ok(v) => v,
            Err(e) => {
                return Err(e);
            },
        };
        proof {
            lemma_vested_bounds(*self, now);
        }
        let amount_not_vested = self.amount - self.amount_claimed - releasable;
        let payout = TransferRequest {
            token: self.token.clone(),
            receiver: self.recipient.clone(),
            amount: releasable,
            memo: None,
        };
        let refund = TransferRequest {
            token: self.token.clone(),
            receiver: recipient.clone(),
            amount: amount_not_vested,
            memo: None,
        };
        Ok(RevokeOutcome { payout, refund })
    }

    /// Finalize a revocation once its transfer requests have been issued:
    /// zero every term, close the books and deactivate the grant, with the
    /// owner taking the recipient's place in the terminal record. The outcome
    /// of the transfers themselves is never observed, so finalization does
    /// not depend on it.
    pub fn callback_revoke(&mut self)
        ensures
            final(self).wf(),
            !final(self).is_active,
            final(self).owner == old(self).owner,
            final(self).recipient == old(self).owner,
            final(self).token == old(self).token,
            final(self).amount == 0,
            final(self).amount_claimed == 0,
            final(self).start == 0,
            final(self).duration == 0,
            final(self).cliff == 0,
            final(self).revocable == old(self).revocable,
    {
        self.is_active = false;
        self.recipient = self.owner.clone();
        self.amount = 0;
        self.amount_claimed = 0;
        self.start = 0;
        self.duration = 0;
        self.cliff = 0;
    }

    /// Send an arbitrary leftover balance to the owner once the grant is no
    /// longer active; only the owner may ask for it, and the grant record
    /// itself is never changed.
    pub fn sweep_grant(&mut self, caller: &String, amount: u128) -> (r: Result<
        TransferRequest,
        VestingError,
    >)
        ensures
            *final(self) == *old(self),
            match r {
                Ok(t) => {
                    &&& old(self).sweep_error(caller@) is None
                    &&& t.token@ == old(self).token@
                    &&& t.receiver@ == old(self).owner@
                    &&& t.memo is None
                    &&& t.amount == amount
                },
                Err(e) => old(self).sweep_error(caller@) == Some(e),
            },
    {
        if !(*caller == self.owner) {
            return Err(VestingError::Unauthorized);
        }
        if self.is_active {
            return Err(VestingError::GrantStillActive);
        }
        Ok(
            TransferRequest {
                token: self.token.clone(),
                receiver: self.owner.clone(),
                amount,
                memo: None,
            },
        )
    }
}

/// Initialize the one durable ledger slot with a new grant. The slot can be
/// filled exactly once: any later attempt is rejected with
/// `AlreadyInitialized` and leaves the stored grant untouched.
pub fn initialize(
    slot: &mut Option<Contract>,
    owner: String,
    recipient: String,
    token: String,
    amount: u128,
    start: u64,
    duration: u64,
    cliff: u64,
    revocable: bool,
    now: u64,
) -> (r: Result<(), VestingError>)
    ensures
        match r {
            Ok(_) => {
                &&& *old(slot) is None
                &&& schedule_error(start, duration, cliff, now) is None
                &&& (*final(slot) matches Some(c) && {
                    &&& c.wf()
                    &&& c.owner@ == owner@
                    &&& c.recipient@ == recipient@
                    &&& c.token@ == token@
                    &&& c.amount == amount
                    &&& c.amount_claimed == 0
                    &&& c.start == start
                    &&& c.duration == duration
                    &&& c.cliff == start + cliff
                    &&& c.revocable == revocable
                    &&& c.is_active
                })
            },
            Err(e) => {
                &&& *final(slot) == *old(slot)
                &&& if *old(slot) is Some {
                    e == VestingError::AlreadyInitialized
                } else {
                    schedule_error(start, duration, cliff, now) == Some(e)
                }
            },
        },
{
    if slot.is_some() {
        return Err(VestingError::AlreadyInitialized);
    }
    match Contract::new(owner, recipient, token, amount, start, duration, cliff, revocable, now) {
        Ok(c) => {
            *slot = Some(c);
            Ok(())
        },
        Err(e) => Err(e),
    }
}

/// Law: the vested amount always lies between zero and the total amount.
pub proof fn lemma_vested_bounds(c: Contract, now: u64)
    requires
        c.wf(),
    ensures
        0 <= c.vested_amount(now) <= c.amount,
{
    if now >= c.cliff && now - c.start < c.duration {
        let ai = c.amount as int;
        let di = c.duration as int;
        let ei = now - c.start;
        lemma_mul_nonnegative(ai, ei);
        lemma_div_pos_is_pos(ai * ei, di);
        lemma_mul_inequality(ei, di, ai);
        lemma_mul_is_commutative(ei, ai);
        lemma_mul_is_commutative(di, ai);
        lemma_multiply_divide_le(ai * ei, di, ai);
    }
}

/// Law: before the cliff, nothing is vested.
pub proof fn lemma_vested_zero_before_cliff(c: Contract, now: u64)
    requires
        c.wf(),
        now < c.cliff,
    ensures
        c.vested_amount(now) == 0,
{
}

/// Law: at or after the end of the window, the whole amount is vested.
pub proof fn lemma_vested_full_after_end(c: Contract, now: u64)
    requires
        c.wf(),
        c.is_active,
        now >= c.start + c.duration,
    ensures
        c.vested_amount(now) == c.amount,
{
}

/// Law: the vested amount never decreases as time advances.
pub proof fn lemma_vested_monotonic(c: Contract, t1: u64, t2: u64)
    requires
        c.wf(),
        t1 <= t2,
    ensures
        c.vested_amount(t1) <= c.vested_amount(t2),
{
    if t1 < c.cliff {
        lemma_vested_bounds(c, t2);
    } else {
        let ai = c.amount as int;
        let di = c.duration as int;
        let e1 = t1 - c.start;
        let e2 = t2 - c.start;
        if e1 >= c.duration {
            // both instants lie past the window
        } else if e2 >= c.duration {
            lemma_vested_bounds(c, t1);
        } else {
            lemma_mul_inequality(e1, e2, ai);
            lemma_mul_is_commutative(e1, ai);
            lemma_mul_is_commutative(e2, ai);
            lemma_div_is_ordered(ai * e1, ai * e2, di);
        }
    }
}

/// Law: a claim by any caller other than the recipient is rejected as
/// `Unauthorized`, whatever the state of the grant.
pub proof fn lemma_claim_requires_recipient(c: Contract, caller: Seq<char>, now: u64)
    requires
        caller != c.recipient@,
    ensures
        c.claim_error(caller, now) == Some(VestingError::Unauthorized),
{
}

/// Law: a revocation by any caller other than the owner is rejected as
/// `Unauthorized`, whatever the state of the grant.
pub proof fn lemma_revoke_requires_owner(c: Contract, caller: Seq<char>, deposit: u128, now: u64)
    requires
        caller != c.owner@,
    ensures
        c.revoke_error(caller, deposit, now) == Some(VestingError::Unauthorized),
{
}

/// Law: claiming is idempotent while time stands still. A successful claim
/// at `now` leaves the books with exactly the vested amount claimed, so a
/// second claim by the recipient at the same instant is rejected with
/// `NothingToClaim`.
pub proof fn lemma_claim_idempotent_same_instant(c: Contract, now: u64)
    requires
        c.wf(),
        c.is_active,
    ensures
        ({
            let after = (Contract {
                amount_claimed: c.vested_amount(now) as u128,
                ..c
            });
            after.claim_error(c.recipient@, now) == Some(VestingError::NothingToClaim)
        }),
{
    lemma_vested_bounds(c, now);
    let after = (Contract { amount_claimed: c.vested_amount(now) as u128, ..c });
    assert(after.vested_amount(now) == c.vested_amount(now));
}

} // verus!
