use vstd::prelude::*;

verus! {

/// The current UTC calendar day as a Julian day number.
///
/// Relies on `time::OffsetDateTime::now_utc` and
/// `time::OffsetDateTime::to_julian_day`. The result depends on the wall
/// clock, so nothing is promised about it.
#[verifier::external_body]
pub fn current_utc_julian_day() -> i32 {
    time::OffsetDateTime::now_utc().to_julian_day()
}

/// Process-wide state tracking whether the upstream metadata API is
/// quota-exhausted for the current UTC day. The marker is cleared lazily on
/// the first check of a later day; no background timer is involved.
#[derive(Debug)]
pub struct RateLimitTracker {
    exhausted_day: Option<i32>,
}

/// One check of the tracker: what it answers, and the marker it leaves
/// behind. A marker from an earlier day is cleared and the answer is
/// "available"; a marker from the same (or a later) day keeps the state
/// exhausted.
pub open spec fn spec_check(marker: Option<i32>, today: i32) -> (bool, Option<i32>) {
    match marker {
        None => (false, None),
        Some(d) => if d < today {
            (false, None)
        } else {
            (true, Some(d))
        },
    }
}

impl RateLimitTracker {
    pub closed spec fn marker(&self) -> Option<i32> {
        self.exhausted_day
    }

    pub fn new() -> (r: RateLimitTracker)
        ensures
            r.marker() is None,
    {
        RateLimitTracker { exhausted_day: None }
    }

    /// Whether the upstream API is still to be treated as exhausted on the
    /// given day, clearing a marker from an earlier day.
    pub fn is_exhausted(&mut self, today: i32) -> (r: bool)
        ensures
            (r, final(self).marker()) == spec_check(old(self).marker(), today),
    {
        match self.exhausted_day {
            None => false,
            Some(day) => {
                if day < today {
                    self.exhausted_day = None;
                    false
                } else {
                    true
                }
            },
        }
    }

    /// Records that the upstream API rejected a request for quota reasons:
    /// the given day becomes the marker.
    pub fn mark_exhausted(&mut self, today: i32)
        ensures
            final(self).marker() == Some(today),
    {
        self.exhausted_day = Some(today);
    }

    /// Checks against the wall clock. Which day that is cannot be stated, so
    /// all this promises is that the answer and the new marker agree with
    /// one check on some day.
    pub fn is_exhausted_today(&mut self) -> (r: bool)
        ensures
            exists|today: i32| (r, final(self).marker()) == spec_check(
                old(self).marker(),
                today,
            ),
    {
        let today = current_utc_julian_day();
        let r = self.is_exhausted(today);
        proof {
            assert((r, self.marker()) == spec_check(old(self).marker(), today));
        }
        r
    }
}

/// Marking the tracker exhausted on day `d` makes every check on day `d`
/// report exhausted and leave the marker in place; the first check on any
/// later day clears the marker and reports available; and once the marker is
/// clear, further checks report available without another transition.
pub proof fn lemma_rate_limit_daily_cycle(d: i32)
    ensures
        spec_check(Some(d), d) == (true, Some(d)),
        forall|later: i32| later > d ==> spec_check(Some(d), later) == (false, None::<i32>),
        forall|today: i32| spec_check(None::<i32>, today) == (false, None::<i32>),
{
}

} // verus!
