//! Instants on the UTC time line, as the run compares them.

use vstd::prelude::*;

verus! {

/// Nanoseconds in one second.
pub const NANOS_PER_SECOND: u32 = 1_000_000_000;

/// Length of one price window, in seconds.
pub const WINDOW_SECONDS: i64 = 3600;

/// An instant: whole seconds since 1970-01-01T00:00:00Z and the nanoseconds
/// past that second. Instants are ordered by `secs`, then by `nanos`.
#[derive(Clone, Copy, Debug, PartialEq, Eq, Structural)]
pub struct Timestamp {
    pub secs: i64,
    pub nanos: u32,
}

impl Timestamp {
    /// `self` lies strictly later than `other`.
    pub open spec fn is_after(self, other: Timestamp) -> bool {
        self.secs > other.secs || (self.secs == other.secs && self.nanos > other.nanos)
    }

    /// `self` lies at `other` or later.
    pub open spec fn is_at_or_after(self, other: Timestamp) -> bool {
        !other.is_after(self)
    }

    /// The nanoseconds are a fraction of a second: the instant is not in
    /// the form that a calendar uses for a leap second.
    pub open spec fn is_whole(self) -> bool {
        self.nanos < NANOS_PER_SECOND
    }

    /// The end of the window that starts at `self` can be represented.
    pub open spec fn has_window_end(self) -> bool {
        self.secs + WINDOW_SECONDS <= i64::MAX
    }

    /// The instant one window length after `self`.
    pub open spec fn window_end(self) -> Timestamp
        recommends
            self.has_window_end(),
    {
        Timestamp { secs: (self.secs + WINDOW_SECONDS) as i64, nanos: self.nanos }
    }

    pub fn new(secs: i64, nanos: u32) -> (t: Timestamp)
        ensures
            t.secs == secs,
            t.nanos == nanos,
    {
        Timestamp { secs, nanos }
    }

    /// Strict comparison of two instants.
    pub fn after(&self, other: &Timestamp) -> (later: bool)
        ensures
            later == self.is_after(*other),
    {
        self.secs > other.secs || (self.secs == other.secs && self.nanos > other.nanos)
    }

    /// The end of the window that starts at `self`, or `None` where the
    /// seconds would leave the range of `i64`.
    pub fn end_of_window(&self) -> (end: Option<Timestamp>)
        ensures
            end == if self.has_window_end() {
                Some(self.window_end())
            } else {
                None::<Timestamp>
            },
    {
        match self.secs.checked_add(WINDOW_SECONDS) {
            Some(secs) => Some(Timestamp { secs, nanos: self.nanos }),
            None => None,
        }
    }
}

/// Reads the wall clock through `chrono::Utc::now` and hands the result on
/// as the seconds and nanoseconds that `DateTime::timestamp` and
/// `DateTime::timestamp_subsec_nanos` report. Trusted: the nanoseconds are
/// below one second, since `Utc::now` takes them from the fraction of a
/// `Duration` and never builds the form that stands for a leap second.
/// Which instant it is depends on the clock. `Utc::now` panics on a clock
/// set before 1970.
#[verifier::external_body]
fn wall_clock() -> (now: Timestamp)
    ensures
        now.is_whole(),
{
    let now = chrono::Utc::now();
    Timestamp { secs: now.timestamp(), nanos: now.timestamp_subsec_nanos() }
}

/// The current instant, as the clock of the machine gives it: seconds since
/// 1970 with a fraction below one second.
pub fn current_time() -> (now: Timestamp)
    ensures
        now.is_whole(),
{
    wall_clock()
}

/// The order of instants is total: of two different instants one is after the other.
pub proof fn lemma_order_is_total(a: Timestamp, b: Timestamp)
    ensures
        a.is_after(b) || b.is_after(a) || a == b,
        !(a.is_after(b) && b.is_after(a)),
        !a.is_after(a),
{
}

/// The order of instants is transitive.
pub proof fn lemma_order_is_transitive(a: Timestamp, b: Timestamp, c: Timestamp)
    requires
        a.is_after(b),
        b.is_at_or_after(c),
    ensures
        a.is_after(c),
{
}

/// A window ends after it starts.
pub proof fn lemma_window_end_is_later(start: Timestamp)
    requires
        start.has_window_end(),
    ensures
        start.window_end().is_after(start),
{
}

} // verus!
