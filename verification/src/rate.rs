//! Rates as exact fractions: a number of events over a span of nanoseconds.
use vstd::prelude::*;

verus! {

/// The mathematical value of a [`Rate`]: `events` events in `nanos`
/// nanoseconds, that is `events * 1_000_000_000 / nanos` hertz.
///
/// No events at all is the zero rate. Events in an empty span are an
/// unbounded rate, above every rate over a span that is not empty.
pub struct Ratio {
    pub events: nat,
    pub nanos: nat,
}

impl Ratio {
    /// The zero rate: no event in one nanosecond.
    pub open spec fn zero() -> Ratio {
        Ratio { events: 0, nanos: 1 }
    }

    /// The rate of one event every `nanos` nanoseconds.
    pub open spec fn once_per(nanos: nat) -> Ratio {
        Ratio { events: 1, nanos }
    }

    /// A ratio has a value unless it is no events in an empty span.
    pub open spec fn is_defined(self) -> bool {
        self.events > 0 || self.nanos > 0
    }

    /// `self` is at most `other`, as fractions compared by cross-multiplication.
    pub open spec fn le(self, other: Ratio) -> bool {
        self.events * other.nanos <= other.events * self.nanos
    }
}

/// An event rate held as an exact fraction; see [`Ratio`] for its meaning.
#[derive(Clone, Copy, Debug, PartialEq, Eq, Structural)]
pub struct Rate {
    pub events: u64,
    pub nanos: u128,
}

impl View for Rate {
    type V = Ratio;

    open spec fn view(&self) -> Ratio {
        Ratio { events: self.events as nat, nanos: self.nanos as nat }
    }
}

impl Rate {
    /// The zero rate, which a tracker reports while it holds no sample.
    pub fn zero() -> (r: Rate)
        ensures
            r@ == Ratio::zero(),
    {
        Rate { events: 0, nanos: 1 }
    }

    /// The rate of one event every `nanos` nanoseconds.
    pub fn once_per(nanos: u64) -> (r: Rate)
        ensures
            r@ == Ratio::once_per(nanos as nat),
    {
        Rate { events: 1, nanos: nanos as u128 }
    }
}

} // verus!
