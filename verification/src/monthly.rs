//! The month-bucketed vesting schedule.
//!
//! Vesting accrues in whole-month steps: the total amount is split evenly
//! over the whole months of the window, and at any instant the vested amount
//! is the per-month share times the number of whole months elapsed since
//! `start`, gated by the cliff, and capped by the full amount once the window
//! has passed. Fractional months release nothing until they complete, and an
//! unevenly divisible total leaves the division remainder to the final step.

use vstd::arithmetic::div_mod::{
    lemma_div_by_self, lemma_div_is_ordered, lemma_div_pos_is_pos, lemma_fundamental_div_mod,
    lemma_mod_bound,
};
use vstd::arithmetic::mul::{lemma_mul_inequality, lemma_mul_is_commutative, lemma_mul_nonnegative};
use vstd::prelude::*;

use crate::errors::VestingError;
use crate::transfer::{RevokeOutcome, TransferRequest};
use crate::utils::ONE_MONTH;

verus! {

/// The grant record: the terms fixed at creation plus the claim and
/// revocation state. Once `is_active` is false the grant is terminal and
/// every mutating operation is rejected.
#[derive(Debug)]
pub struct Contract {
    /// Account with administrative rights: may revoke the grant.
    pub owner: String,
    /// Account entitled to the vested tokens.
    pub recipient: String,
    /// Account of the fungible-token contract holding the balance.
    pub token: String,
    /// Total amount ever vestable; zeroed on revocation.
    pub amount: u128,
    /// Amount already paid out to the recipient.
    pub amount_claimed: u128,
    /// Instant (nanoseconds) at which vesting begins to accrue.
    pub start: u64,
    /// Length (nanoseconds) of the vesting window.
    pub duration: u64,
    /// Instant before which nothing is releasable.
    pub cliff: u64,
    /// Whether the owner may revoke the grant; fixed at creation.
    pub revocable: bool,
    /// False once the grant has been revoked.
    pub is_active: bool,
}

/// Validation of the schedule terms at creation, in the order the checks are
/// made: the cliff must end strictly inside the window, the end of the window
/// must be representable, and it must lie strictly in the future.
pub open spec fn schedule_error(
    start: u64,
    duration: u64,
    cliff_duration: u64,
    now: u64,
) -> Option<VestingError> {
    if cliff_duration >= duration {
        Some(VestingError::InvalidSchedule)
    } else if start + duration > u64::MAX {
        Some(VestingError::ArithmeticOverflow)
    } else if start + duration <= now {
        Some(VestingError::InvalidSchedule)
    } else {
        None
    }
}

impl Contract {
    /// Well-formedness of a grant record: the cliff never precedes the start,
    /// and while the grant is active the window is nonempty, the cliff ends
    /// strictly inside it, its end is representable, and no more has been
    /// claimed than the total.
    pub open spec fn wf(self) -> bool {
        &&& self.start <= self.cliff
        &&& (self.is_active ==> {
            &&& self.duration > 0
            &&& self.cliff - self.start < self.duration
            &&& self.start + self.duration <= u64::MAX
            &&& self.amount_claimed <= self.amount
        })
    }

    /// The per-month share: the total split evenly over the whole months of
    /// the window, remainder discarded until the window completes.
    pub open spec fn per_month_share(self) -> int {
        (self.amount as int) / ((self.duration as int) / (ONE_MONTH as int))
    }

    /// Amount vested at `now`: nothing before the cliff, everything once the
    /// window has elapsed, and otherwise the per-month share times the whole
    /// months elapsed since `start`.
    pub open spec fn vested_amount(self, now: u64) -> int {
        if now < self.cliff {
            0
        } else if now - self.start >= self.duration {
            self.amount as int
        } else {
            self.per_month_share() * ((now - self.start) / (ONE_MONTH as int))
        }
    }

    /// True when reaching the in-window branch of the calculation implies the
    /// window spans at least one whole month. The bucketed calculation
    /// divides by the number of whole months in the window, so a grant whose
    /// window is shorter than one month has no defined per-month share and
    /// its in-window calculation is rejected outright.
    pub open spec fn month_share_defined(self, now: u64) -> bool {
        (now >= self.cliff && now - self.start < self.duration) ==> self.duration >= ONE_MONTH
    }

    /// The reason a claim by `caller` at `now` is rejected, or `None` when it
    /// succeeds, with the checks in order: identity, liveness, books.
    pub open spec fn claim_error(self, caller: Seq<char>, now: u64) -> Option<VestingError> {
        if caller != self.recipient@ {
            Some(VestingError::Unauthorized)
        } else if !self.is_active {
            Some(VestingError::GrantInactive)
        } else if self.vested_amount(now) < self.amount_claimed {
            Some(VestingError::ArithmeticOverflow)
        } else if self.vested_amount(now) == self.amount_claimed {
            Some(VestingError::NothingToClaim)
        } else {
            None
        }
    }

    /// The reason a revocation by `caller` with `deposit` attached at `now`
    /// is rejected, or `None` when it succeeds. The one-token deposit is the
    /// explicit confirmation signal a privileged call must carry.
    pub open spec fn revoke_error(
        self,
        caller: Seq<char>,
        deposit: u128,
        now: u64,
    ) -> Option<VestingError> {
        if caller != self.owner@ {
            Some(VestingError::Unauthorized)
        } else if deposit != 1 {
            Some(VestingError::Unauthorized)
        } else if !self.revocable {
            Some(VestingError::NotRevocable)
        } else if !self.is_active {
            Some(VestingError::GrantInactive)
        } else if self.vested_amount(now) < self.amount_claimed {
            Some(VestingError::ArithmeticOverflow)
        } else {
            None
        }
    }

    /// Create a grant from its terms, validating the schedule against the
    /// current time `now`. The stored cliff instant is `start` plus the given
    /// cliff length.
    pub fn new(
        owner: String,
        recipient: String,
        token: String,
        amount: u128,
        start: u64,
        duration: u64,
        cliff_duration: u64,
        revocable: bool,
        now: u64,
    ) -> (r: Result<Contract, VestingError>)
        ensures
            match r {
                Ok(c) => {
                    &&& schedule_error(start, duration, cliff_duration, now) is None
                    &&& c.wf()
                    &&& c.owner@ == owner@
                    &&& c.recipient@ == recipient@
                    &&& c.token@ == token@
                    &&& c.amount == amount
                    &&& c.amount_claimed == 0
                    &&& c.start == start
                    &&& c.duration == duration
                    &&& c.cliff == start + cliff_duration
                    &&& c.revocable == revocable
                    &&& c.is_active
                },
                Err(e) => schedule_error(start, duration, cliff_duration, now) == Some(e),
            },
    {
        if !(cliff_duration < duration) {
            return Err(VestingError::InvalidSchedule);
        }
        let end = match start.checked_add(duration) {
            Some(end) => end,
            None => {
                return Err(VestingError::ArithmeticOverflow);
            },
        };
        if !(end > now) {
            return Err(VestingError::InvalidSchedule);
        }
        Ok(
            Contract {
                owner,
                recipient,
                token,
                amount,
                amount_claimed: 0,
                start,
                duration,
                cliff: start + cliff_duration,
                revocable,
                is_active: true,
            },
        )
    }

    /// Account entitled to the vested tokens.
    pub fn recipient(&self) -> (r: String)
        ensures
            r == self.recipient,
    {
        self.recipient.clone()
    }

    /// Account with administrative rights.
    pub fn owner(&self) -> (r: String)
        ensures
            r == self.owner,
    {
        self.owner.clone()
    }

    /// Total amount ever vestable.
    pub fn amount(&self) -> (r: u128)
        ensures
            r == self.amount,
    {
        self.amount
    }

    /// Account of the fungible-token contract holding the balance.
    pub fn token(&self) -> (r: String)
        ensures
            r == self.token,
    {
        self.token.clone()
    }

    /// Amount already paid out to the recipient.
    pub fn amount_claimed(&self) -> (r: u128)
        ensures
            r == self.amount_claimed,
    {
        self.amount_claimed
    }

    /// Instant before which nothing is releasable.
    pub fn cliff(&self) -> (r: u64)
        ensures
            r == self.cliff,
    {
        self.cliff
    }

    /// Instant at which vesting begins to accrue.
    pub fn start(&self) -> (r: u64)
        ensures
            r == self.start,
    {
        self.start
    }

    /// Length of the vesting window.
    pub fn duration(&self) -> (r: u64)
        ensures
            r == self.duration,
    {
        self.duration
    }

    /// Whether the owner may revoke the grant.
    pub fn revocable(&self) -> (r: bool)
        ensures
            r == self.revocable,
    {
        self.revocable
    }

    /// Whether the grant is still active.
    pub fn is_active(&self) -> (r: bool)
        ensures
            r == self.is_active,
    {
        self.is_active
    }

    /// Amount vested at `now`, as a pure function of the grant terms.
    pub fn calculate_amount_vested(&self, now: u64) -> (r: u128)
        requires
            self.wf(),
            self.month_share_defined(now),
        ensures
            r == self.vested_amount(now),
            r <= self.amount,
    {
        self.internal_calculate_amount_vested(now)
    }

    fn internal_calculate_amount_vested(&self, now: u64) -> (r: u128)
        requires
            self.wf(),
            self.month_share_defined(now),
        ensures
            r == self.vested_amount(now),
            r <= self.amount,
    {
        if now < self.cliff {
            return 0;
        }
        let elapsed_time: u64 = now - self.start;
        if elapsed_time >= self.duration {
            self.amount
        } else {
            let whole_months: u64 = self.duration / ONE_MONTH;
            proof {
                lemma_div_is_ordered(ONE_MONTH as int, self.duration as int, ONE_MONTH as int);
                lemma_div_by_self(ONE_MONTH as int);
            }
            let months_elapsed: u64 = elapsed_time / ONE_MONTH;
            let amount_per_month: u128 = self.amount / (whole_months as u128);
            proof {
                lemma_div_is_ordered(elapsed_time as int, self.duration as int, ONE_MONTH as int);
                lemma_mod_bound(self.amount as int, whole_months as int);
                lemma_fundamental_div_mod(self.amount as int, whole_months as int);
                lemma_mul_inequality(
                    months_elapsed as int,
                    whole_months as int,
                    amount_per_month as int,
                );
                lemma_mul_is_commutative(whole_months as int, amount_per_month as int);
                lemma_mul_is_commutative(months_elapsed as int, amount_per_month as int);
            }
            amount_per_month * (months_elapsed as u128)
        }
    }

    /// Vested-but-unclaimed amount at `now`; `ArithmeticOverflow` in the
    /// defect case where the books record more claimed than vested.
    pub fn releasable_amount(&self, now: u64) -> (r: Result<u128, VestingError>)
        requires
            self.wf(),
            self.month_share_defined(now),
        ensures
            match r {
                Ok(v) => {
                    &&& self.amount_claimed <= self.vested_amount(now)
                    &&& v == self.vested_amount(now) - self.amount_claimed
                },
                Err(e) => {
                    &&& e == VestingError::ArithmeticOverflow
                    &&& self.vested_amount(now) < self.amount_claimed
                },
            },
    {
        self.internal_releasable_amount(now)
    }

    fn internal_releasable_amount(&self, now: u64) -> (r: Result<u128, VestingError>)
        requires
            self.wf(),
            self.month_share_defined(now),
        ensures
            match r {
                Ok(v) => {
                    &&& self.amount_claimed <= self.vested_amount(now)
                    &&& v == self.vested_amount(now) - self.amount_claimed
                },
                Err(e) => {
                    &&& e == VestingError::ArithmeticOverflow
                    &&& self.vested_amount(now) < self.amount_claimed
                },
            },
    {
        let vested = self.internal_calculate_amount_vested(now);
        match vested.checked_sub(self.amount_claimed) {
            Some(v) => Ok(v),
            None => Err(VestingError::ArithmeticOverflow),
        }
    }

    /// Claim the releasable amount for the recipient: the books are updated
    /// first, then the transfer request for exactly that delta is handed back
    /// for the host to issue. On any error the grant is unchanged.
    pub fn claim_vested(&mut self, caller: &String, now: u64) -> (r: Result<
        TransferRequest,
        VestingError,
    >)
        requires
            old(self).wf(),
            (caller@ == old(self).recipient@ && old(self).is_active) ==> old(
                self,
            ).month_share_defined(now),
        ensures
            final(self).wf(),
            match r {
                Ok(t) => {
                    &&& old(self).claim_error(caller@, now) is None
                    &&& t.token@ == old(self).token@
                    &&& t.receiver@ == old(self).recipient@
                    &&& t.memo is None
                    &&& t.amount == old(self).vested_amount(now) - old(self).amount_claimed
                    &&& t.amount > 0
                    &&& final(self).amount_claimed == old(self).vested_amount(now)
                    &&& *final(self) == (Contract {
                        amount_claimed: final(self).amount_claimed,
                        ..*old(self)
                    })
                },
                Err(e) => {
                    &&& *final(self) == *old(self)
                    &&& old(self).claim_error(caller@, now) == Some(e)
                },
            },
    {
        if !(*caller == self.recipient) {
            return Err(VestingError::Unauthorized);
        }
        if !self.is_active {
            return Err(VestingError::GrantInactive);
        }
        let releasable = match self.internal_releasable_amount(now) {
            Ok(v) => v,
            Err(e) => {
                return Err(e);
            },
        };
        if releasable == 0 {
            return Err(VestingError::NothingToClaim);
        }
        proof {
            lemma_vested_bounds(*self, now);
        }
        self.amount_claimed = self.amount_claimed + releasable;
        Ok(
            TransferRequest {
                token: self.token.clone(),
                receiver: self.recipient.clone(),
                amount: releasable,
                memo: None,
            },
        )
    }

    /// Revoke the grant: pay the vested-but-unclaimed remainder out to the
    /// recipient, return the unvested rest to the owner, zero the terms and
    /// deactivate the grant, all in the same step. The refund's amount is the
    /// value acknowledged to the caller; whether the two transfer requests
    /// ultimately succeed is never observed here.
    pub fn revoke(&mut self, caller: &String, deposit: u128, now: u64) -> (r: Result<
        RevokeOutcome,
        VestingError,
    >)
        requires
            old(self).wf(),
            (caller@ == old(self).owner@ && deposit == 1 && old(self).revocable && old(
                self,
            ).is_active) ==> old(self).month_share_defined(now),
        ensures
            final(self).wf(),
            match r {
                Ok(o) => {
                    &&& old(self).revoke_error(caller@, deposit, now) is None
                    &&& o.payout.token@ == old(self).token@
                    &&& o.payout.receiver@ == old(self).recipient@
                    &&& o.payout.memo is None
                    &&& o.payout.amount == old(self).vested_amount(now) - old(self).amount_claimed
                    &&& o.refund.token@ == old(self).token@
                    &&& o.refund.receiver@ == old(self).owner@
                    &&& o.refund.memo is None
                    &&& o.refund.amount == old(self).amount - old(self).vested_amount(now)
                    &&& o.payout.amount + o.refund.amount + old(self).amount_claimed == old(
                        self,
                    ).amount
                    &&& *final(self) == (Contract {
                        amount: 0,
                        start: 0,
                        duration: 0,
                        cliff: 0,
                        is_active: false,
                        ..*old(self)
                    })
                },
                Err(e) => {
                    &&& *final(self) == *old(self)
                    &&& old(self).revoke_error(caller@, deposit, now) == Some(e)
                },
            },
    {
        if !(*caller == self.owner) {
            return Err(VestingError::Unauthorized);
        }
        if deposit != 1 {
            return Err(VestingError::Unauthorized);
        }
        if !self.revocable {
            return Err(VestingError::NotRevocable);
        }
        if !self.is_active {
            return Err(VestingError::GrantInactive);
        }
        let releasable = match self.internal_releasable_amount(now) {
            Ok(v) => v,
            Err(e) => {
                return Err(e);
            },
        };
        proof {
            lemma_vested_bounds(*self, now);
        }
        let amount_not_vested = self.amount - self.amount_claimed - releasable;
        let payout = TransferRequest {
            token: self.token.clone(),
            receiver: self.recipient.clone(),
            amount: releasable,
            memo: None,
        };
        let refund = TransferRequest {
            token: self.token.clone(),
            receiver: self.owner.clone(),
            amount: amount_not_vested,
            memo: None,
        };
        self.amount = 0;
        self.start = 0;
        self.duration = 0;
        self.cliff = 0;
        self.is_active = false;
        Ok(RevokeOutcome { payout, refund })
    }
}

/// Law: the vested amount always lies between zero and the total amount.
pub proof fn lemma_vested_bounds(c: Contract, now: u64)
    requires
        c.wf(),
    ensures
        0 <= c.vested_amount(now) <= c.amount,
{
    let m = ONE_MONTH as int;
    if now >= c.cliff && now - c.start < c.duration {
        let e = now - c.start;
        let k = (c.duration as int) / m;
        if k > 0 {
            lemma_div_is_ordered(e as int, c.duration as int, m);
            lemma_div_pos_is_pos(e as int, m);
            lemma_div_pos_is_pos(c.amount as int, k);
            lemma_mod_bound(c.amount as int, k);
            lemma_fundamental_div_mod(c.amount as int, k);
            lemma_mul_nonnegative(c.per_month_share(), e / m);
            lemma_mul_inequality(e / m, k, c.per_month_share());
            lemma_mul_is_commutative(k, c.per_month_share());
        } else {
            assert(c.duration < ONE_MONTH) by {
                if c.duration >= ONE_MONTH {
                    lemma_div_is_ordered(ONE_MONTH as int, c.duration as int, m);
                    lemma_div_by_self(m);
                }
            }
            assert(e / m == 0);
        }
    }
}

/// Law: before the cliff, nothing is vested.
pub proof fn lemma_vested_zero_before_cliff(c: Contract, now: u64)
    requires
        c.wf(),
        now < c.cliff,
    ensures
        c.vested_amount(now) == 0,
{
}

/// Law: at or after the end of the window, the whole amount is vested.
pub proof fn lemma_vested_full_after_end(c: Contract, now: u64)
    requires
        c.wf(),
        c.is_active,
        now >= c.start + c.duration,
    ensures
        c.vested_amount(now) == c.amount,
{
}

/// Law: the vested amount never decreases as time advances.
pub proof fn lemma_vested_monotonic(c: Contract, t1: u64, t2: u64)
    requires
        c.wf(),
        t1 <= t2,
    ensures
        c.vested_amount(t1) <= c.vested_amount(t2),
{
    let m = ONE_MONTH as int;
    if t1 < c.cliff {
        lemma_vested_bounds(c, t2);
    } else {
        let e1 = t1 - c.start;
        let e2 = t2 - c.start;
        if e1 >= c.duration {
            // both instants lie past the window
        } else if e2 >= c.duration {
            lemma_vested_bounds(c, t1);
        } else {
            let k = (c.duration as int) / m;
            if k > 0 {
                lemma_div_is_ordered(e1 as int, e2 as int, m);
                lemma_div_pos_is_pos(c.amount as int, k);
                lemma_mul_inequality(e1 / m, e2 / m, c.per_month_share());
                lemma_mul_is_commutative(e1 / m, c.per_month_share());
                lemma_mul_is_commutative(e2 / m, c.per_month_share());
            } else {
                assert(c.duration < ONE_MONTH) by {
                    if c.duration >= ONE_MONTH {
                        lemma_div_is_ordered(ONE_MONTH as int, c.duration as int, m);
                        lemma_div_by_self(m);
                    }
                }
                assert(e1 / m == 0 && e2 / m == 0);
            }
        }
    }
}

/// Law: a claim by any caller other than the recipient is rejected as
/// `Unauthorized`, whatever the state of the grant.
pub proof fn lemma_claim_requires_recipient(c: Contract, caller: Seq<char>, now: u64)
    requires
        caller != c.recipient@,
    ensures
        c.claim_error(caller, now) == Some(VestingError::Unauthorized),
{
}

/// Law: a revocation by any caller other than the owner is rejected as
/// `Unauthorized`, whatever the state of the grant.
pub proof fn lemma_revoke_requires_owner(c: Contract, caller: Seq<char>, deposit: u128, now: u64)
    requires
        caller != c.owner@,
    ensures
        c.revoke_error(caller, deposit, now) == Some(VestingError::Unauthorized),
{
}

/// Law: claiming is idempotent while time stands still. A successful claim
/// at `now` leaves the books with exactly the vested amount claimed, so a
/// second claim by the recipient at the same instant is rejected with
/// `NothingToClaim`.
pub proof fn lemma_claim_idempotent_same_instant(c: Contract, now: u64)
    requires
        c.wf(),
        c.is_active,
    ensures
        ({
            let after = (Contract {
                amount_claimed: c.vested_amount(now) as u128,
                ..c
            });
            after.claim_error(c.recipient@, now) == Some(VestingError::NothingToClaim)
        }),
{
    lemma_vested_bounds(c, now);
    let after = (Contract { amount_claimed: c.vested_amount(now) as u128, ..c });
    assert(after.vested_amount(now) == c.vested_amount(now));
}

} // verus!
