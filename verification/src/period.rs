use vstd::prelude::*;

verus! {

/// A point in time as the Unix timestamp and the nanoseconds within that
/// second (above a billion during a leap second).
#[derive(Clone, Copy, Debug, PartialEq, Eq, Structural)]
pub struct Moment {
    pub secs: i64,
    pub nanos: u32,
}

/// Length of the default digest period: seven days, in seconds.
pub const WEEK_SECS: i64 = 604800;

impl Moment {
    /// Strictly earlier than `other`.
    pub open spec fn is_before(self, other: Moment) -> bool {
        self.secs < other.secs || (self.secs == other.secs && self.nanos < other.nanos)
    }

    /// Strictly later than `other`.
    pub open spec fn is_after(self, other: Moment) -> bool {
        other.is_before(self)
    }

    pub fn before(&self, other: &Moment) -> (r: bool)
        ensures
            r == self.is_before(*other),
    {
        self.secs < other.secs || (self.secs == other.secs && self.nanos < other.nanos)
    }

    pub fn after(&self, other: &Moment) -> (r: bool)
        ensures
            r == self.is_after(*other),
    {
        other.before(self)
    }
}

/// The period a digest covers: by default from a week before `now_secs` up
/// to `now_secs` (whole seconds), each end replaced by the one given.
pub fn digest_period(now_secs: i64, from: Option<Moment>, to: Option<Moment>) -> (r: (Moment, Moment))
    requires
        now_secs >= i64::MIN + WEEK_SECS,
    ensures
        r.0 == (match from {
            Some(f) => f,
            None => Moment { secs: (now_secs - WEEK_SECS) as i64, nanos: 0 },
        }),
        r.1 == (match to {
            Some(t) => t,
            None => Moment { secs: now_secs, nanos: 0 },
        }),
{
    let current = Moment { secs: now_secs, nanos: 0 };
    let week_ago = Moment { secs: now_secs - WEEK_SECS, nanos: 0 };
    let from_date = match from {
        Some(f) => f,
        None => week_ago,
    };
    let to_date = match to {
        Some(t) => t,
        None => current,
    };
    (from_date, to_date)
}

} // verus!
