//! The mathematical model of a tracker: a bounded window of frame times.
use vstd::prelude::*;
use crate::rate::Ratio;

verus! {

/// The sum of the frame times in `s`, in nanoseconds.
pub open spec fn total(s: Seq<u64>) -> nat
    decreases s.len(),
{
    if s.len() == 0 {
        0
    } else {
        total(s.drop_last()) + s.last() as nat
    }
}

/// `d` occurs in `s` and no frame time in `s` is longer.
pub open spec fn is_longest(s: Seq<u64>, d: u64) -> bool {
    &&& exists|i: int| 0 <= i < s.len() && s[i] == d
    &&& forall|i: int| 0 <= i < s.len() ==> s[i] <= d
}

/// `d` occurs in `s` and no frame time in `s` is shorter.
pub open spec fn is_shortest(s: Seq<u64>, d: u64) -> bool {
    &&& exists|i: int| 0 <= i < s.len() && s[i] == d
    &&& forall|i: int| 0 <= i < s.len() ==> d <= s[i]
}

/// The longest frame time in `s`, where `s` is not empty.
pub open spec fn longest(s: Seq<u64>) -> u64 {
    choose|d: u64| is_longest(s, d)
}

/// The shortest frame time in `s`, where `s` is not empty.
pub open spec fn shortest(s: Seq<u64>) -> u64 {
    choose|d: u64| is_shortest(s, d)
}

/// The `n` most recent entries of `s`, oldest first; all of `s` if it holds
/// no more than `n`.
pub open spec fn newest(s: Seq<u64>, n: nat) -> Seq<u64> {
    if s.len() <= n {
        s
    } else {
        s.subrange(s.len() - n, s.len() as int)
    }
}

/// The mean rate over the frame times `s`: as many events as there are frame
/// times, in the time they took together. Zero if there is none.
pub open spec fn mean_rate(s: Seq<u64>) -> Ratio {
    if s.len() == 0 {
        Ratio::zero()
    } else {
        Ratio { events: s.len(), nanos: total(s) }
    }
}

/// The lowest rate among the frame times `s`, that of the longest frame. Zero
/// if there is none.
pub open spec fn lowest_rate(s: Seq<u64>) -> Ratio {
    if s.len() == 0 {
        Ratio::zero()
    } else {
        Ratio::once_per(longest(s) as nat)
    }
}

/// The highest rate among the frame times `s`, that of the shortest frame.
/// Zero if there is none.
pub open spec fn highest_rate(s: Seq<u64>) -> Ratio {
    if s.len() == 0 {
        Ratio::zero()
    } else {
        Ratio::once_per(shortest(s) as nat)
    }
}

/// What a tracker is, apart from its clock: a capacity and the frame times it
/// holds, oldest first.
pub struct Window {
    pub capacity: nat,
    pub samples: Seq<u64>,
}

impl Window {
    /// The window of a new tracker.
    pub open spec fn empty(capacity: nat) -> Window {
        Window { capacity, samples: Seq::empty() }
    }

    /// A window never holds more than its capacity.
    pub open spec fn bounded(self) -> bool {
        self.samples.len() <= self.capacity
    }

    /// The window after one more frame time: `delta` is appended, and the
    /// oldest entries leave until the capacity is met. With capacity zero
    /// nothing is ever held.
    pub open spec fn record(self, delta: u64) -> Window {
        Window { capacity: self.capacity, samples: newest(self.samples.push(delta), self.capacity) }
    }

    /// The window after the frame times `deltas`, recorded in order.
    pub open spec fn replay(self, deltas: Seq<u64>) -> Window
        decreases deltas.len(),
    {
        if deltas.len() == 0 {
            self
        } else {
            self.replay(deltas.drop_last()).record(deltas.last())
        }
    }

    /// The mean rate over the window.
    pub open spec fn avg(self) -> Ratio {
        mean_rate(self.samples)
    }

    /// The lowest rate in the window.
    pub open spec fn min(self) -> Ratio {
        lowest_rate(self.samples)
    }

    /// The highest rate in the window.
    pub open spec fn max(self) -> Ratio {
        highest_rate(self.samples)
    }
}

/// A sequence that is not empty has a longest entry.
pub proof fn lemma_longest_exists(s: Seq<u64>)
    requires
        s.len() > 0,
    ensures
        is_longest(s, longest(s)),
    decreases s.len(),
{
    if s.len() == 1 {
        assert(is_longest(s, s[0]));
    } else {
        let front = s.drop_last();
        lemma_longest_exists(front);
        let m = longest(front);
        let i = choose|i: int| 0 <= i < front.len() && front[i] == m;
        assert(s[i] == m);
        if s.last() <= m {
            assert forall|j: int| 0 <= j < s.len() implies s[j] <= m by {
                if j < front.len() {
                    assert(s[j] == front[j]);
                }
            }
            assert(is_longest(s, m));
        } else {
            assert forall|j: int| 0 <= j < s.len() implies s[j] <= s.last() by {
                if j < front.len() {
                    assert(s[j] == front[j]);
                }
            }
            assert(s[s.len() - 1] == s.last());
            assert(is_longest(s, s.last()));
        }
    }
}

/// The longest entry is unique: whatever meets `is_longest` is `longest`.
pub proof fn lemma_longest_unique(s: Seq<u64>, d: u64)
    requires
        is_longest(s, d),
    ensures
        longest(s) == d,
{
    let m = longest(s);
    assert(is_longest(s, m));
}

/// A sequence that is not empty has a shortest entry.
pub proof fn lemma_shortest_exists(s: Seq<u64>)
    requires
        s.len() > 0,
    ensures
        is_shortest(s, shortest(s)),
    decreases s.len(),
{
    if s.len() == 1 {
        assert(is_shortest(s, s[0]));
    } else {
        let front = s.drop_last();
        lemma_shortest_exists(front);
        let m = shortest(front);
        let i = choose|i: int| 0 <= i < front.len() && front[i] == m;
        assert(s[i] == m);
        if m <= s.last() {
            assert forall|j: int| 0 <= j < s.len() implies m <= s[j] by {
                if j < front.len() {
                    assert(s[j] == front[j]);
                }
            }
            assert(is_shortest(s, m));
        } else {
            assert forall|j: int| 0 <= j < s.len() implies s.last() <= s[j] by {
                if j < front.len() {
                    assert(s[j] == front[j]);
                }
            }
            assert(s[s.len() - 1] == s.last());
            assert(is_shortest(s, s.last()));
        }
    }
}

/// The shortest entry is unique: whatever meets `is_shortest` is `shortest`.
pub proof fn lemma_shortest_unique(s: Seq<u64>, d: u64)
    requires
        is_shortest(s, d),
    ensures
        shortest(s) == d,
{
    let m = shortest(s);
    assert(is_shortest(s, m));
}

/// The total lies between the count times a lower bound of the entries and
/// the count times an upper bound of them.
pub proof fn lemma_total_between(s: Seq<u64>, lo: nat, hi: nat)
    requires
        forall|i: int| 0 <= i < s.len() ==> lo <= #[trigger] s[i] && s[i] <= hi,
    ensures
        s.len() * lo <= total(s) <= s.len() * hi,
    decreases s.len(),
{
    if s.len() > 0 {
        let front = s.drop_last();
        assert forall|i: int| 0 <= i < front.len() implies lo <= #[trigger] front[i] && front[i] <= hi by {
            assert(front[i] == s[i]);
        }
        lemma_total_between(front, lo, hi);
        assert(lo <= s[s.len() - 1] && s[s.len() - 1] <= hi);
        assert(s.len() * lo == front.len() * lo + lo) by (nonlinear_arith)
            requires
                s.len() == front.len() + 1,
        ;
        assert(s.len() * hi == front.len() * hi + hi) by (nonlinear_arith)
            requires
                s.len() == front.len() + 1,
        ;
    }
}

} // verus!
