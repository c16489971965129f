//! How far past its due date a review falls, measured in intervals.
use vstd::prelude::*;

verus! {

/// Why a review cannot be scheduled.
#[derive(Debug, Clone, Copy, PartialEq, Eq, Structural)]
pub enum ScheduleError {
    /// The card's interval is zero, so no fraction of it can be taken.
    ZeroInterval,
}

/// The exact fraction `numerator / denominator` of a card's interval that has
/// passed since its last review, capped at two. The numerator is negative
/// when the review day lies before the recorded update day.
#[derive(Debug, Clone, Copy, PartialEq, Eq, Structural)]
pub struct Overdue {
    pub numerator: i64,
    pub denominator: u32,
}

impl Overdue {
    /// A fraction with a positive denominator that is at most two.
    pub open spec fn wf(self) -> bool {
        self.denominator > 0 && self.numerator <= 2 * self.denominator
    }

    /// The fraction stands at its cap of exactly two.
    pub open spec fn is_capped(self) -> bool {
        self.numerator == 2 * self.denominator
    }
}

/// Days from the last update to the review day; negative when the review
/// day comes first.
pub open spec fn elapsed_days(update: u32, today: u32) -> int {
    today - update
}

/// The fraction of `interval` elapsed between `update` and `today`, capped at
/// two. A review two or more intervals late yields exactly `2 / 1`; a zero
/// interval is rejected.
pub fn percent_overdue(interval: u32, update: u32, today: u32) -> (r: Result<Overdue, ScheduleError>)
    ensures
        r is Err <==> interval == 0,
        r matches Err(e) ==> e == ScheduleError::ZeroInterval,
        r matches Ok(o) ==> o.wf(),
        r matches Ok(o) ==> (elapsed_days(update, today) >= 2 * interval <==> o.is_capped()),
        r matches Ok(o) ==> (elapsed_days(update, today) >= 2 * interval ==> o.numerator == 2
            && o.denominator == 1),
        r matches Ok(o) ==> (elapsed_days(update, today) < 2 * interval ==> o.numerator
            == elapsed_days(update, today) && o.denominator == interval),
{
    if interval == 0 {
        return Err(ScheduleError::ZeroInterval);
    }
    let elapsed: i64 = today as i64 - update as i64;
    if elapsed >= 2 * (interval as i64) {
        Ok(Overdue { numerator: 2, denominator: 1 })
    } else {
        Ok(Overdue { numerator: elapsed, denominator: interval })
    }
}

} // verus!
