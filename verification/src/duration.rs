//! Spans of time.

use vstd::prelude::*;

verus! {

/// Number of nanoseconds in a second.
pub const NANOS_PER_SEC: u32 = 1_000_000_000;

/// Number of nanoseconds in a millisecond.
pub const NANOS_PER_MILLI: u32 = 1_000_000;

/// A span of time with a nanosecond resolution.
///
/// Its view is the total number of nanoseconds.
#[derive(Copy, Clone, PartialEq, Eq, PartialOrd, Ord, Hash, Debug)]
pub struct Duration {
    secs: u64,
    nanos: u32,
}

impl View for Duration {
    type V = nat;

    closed spec fn view(&self) -> nat {
        (self.secs * NANOS_PER_SEC + self.nanos) as nat
    }
}

impl Duration {
    /// Whole seconds are always carried over into the seconds counter.
    #[verifier::type_invariant]
    spec fn carried(self) -> bool {
        self.nanos < NANOS_PER_SEC
    }

    /// Span of the given number of seconds and additional nanoseconds.
    pub fn new(secs: u64, nanos: u32) -> (res: Duration)
        requires
            nanos < NANOS_PER_SEC,
        ensures
            res@ == secs * NANOS_PER_SEC + nanos,
    {
        Duration { secs, nanos }
    }

    /// Span of the given number of whole seconds.
    pub fn from_secs(secs: u64) -> (res: Duration)
        ensures
            res@ == secs * NANOS_PER_SEC,
    {
        Duration { secs, nanos: 0 }
    }

    /// Span of the given number of whole milliseconds.
    pub fn from_millis(millis: u64) -> (res: Duration)
        ensures
            res@ == millis * NANOS_PER_MILLI,
    {
        Duration { secs: millis / 1000, nanos: (millis % 1000) as u32 * NANOS_PER_MILLI }
    }

    /// Number of whole seconds in the span.
    pub fn as_secs(&self) -> (secs: u64)
        ensures
            secs == self@ / NANOS_PER_SEC as nat,
    {
        proof {
            use_type_invariant(self);
        }
        self.secs
    }

    /// Number of nanoseconds of the span which do not make up a whole second.
    pub fn subsec_nanos(&self) -> (nanos: u32)
        ensures
            nanos == self@ % (NANOS_PER_SEC as nat),
    {
        proof {
            use_type_invariant(self);
        }
        self.nanos
    }

    /// Number of whole milliseconds in the span.
    pub fn as_millis(&self) -> (millis: u128)
        ensures
            millis == self@ / NANOS_PER_MILLI as nat,
            millis <= u64::MAX * 1000 + 999,
    {
        proof {
            use_type_invariant(self);
        }
        self.secs as u128 * 1000 + (self.nanos / NANOS_PER_MILLI) as u128
    }
}

/// The text which `std::time::Duration` is shown with for debugging, by its seconds and additional
/// nanoseconds.
pub uninterp spec fn duration_text(secs: u64, nanos: u32) -> Seq<char>;

/// Shows a span with the `Debug` formatting of `std::time::Duration`.
///
/// Claims that the text depends on the seconds and the additional nanoseconds alone. Which text it
/// is, is left unsaid: the unit and the precision vary with the length of the span.
#[verifier::external_body]
fn debug_duration(secs: u64, nanos: u32) -> (res: String)
    requires
        nanos < NANOS_PER_SEC,
    ensures
        res@ == duration_text(secs, nanos),
{
    format!("{:?}", std::time::Duration::new(secs, nanos))
}

impl Duration {
    /// The text which the span is shown with.
    pub open spec fn text(self) -> Seq<char> {
        duration_text(
            (self@ / NANOS_PER_SEC as nat) as u64,
            (self@ % (NANOS_PER_SEC as nat)) as u32,
        )
    }

    /// Shows the span with a unit, like `30ms`.
    pub fn to_string(&self) -> (res: String)
        ensures
            res@ == self.text(),
    {
        debug_duration(self.as_secs(), self.subsec_nanos())
    }
}

} // verus!
