//! What holds of every window, whatever frame times it is given.
use vstd::prelude::*;
use crate::rate::Ratio;
use crate::window::Window;
use crate::window::is_longest;
use crate::window::is_shortest;
use crate::window::lemma_longest_exists;
use crate::window::lemma_longest_unique;
use crate::window::lemma_shortest_exists;
use crate::window::lemma_shortest_unique;
use crate::window::lemma_total_between;
use crate::window::longest;
use crate::window::newest;
use crate::window::shortest;
use crate::window::total;

verus! {

/// Keeping the newest `n` after each entry is keeping the newest `n` once.
proof fn lemma_newest_push(s: Seq<u64>, d: u64, n: nat)
    ensures
        newest(newest(s, n).push(d), n) == newest(s.push(d), n),
{
    assert(newest(newest(s, n).push(d), n) =~= newest(s.push(d), n));
}

/// Recording never changes the capacity and never leaves more in the window
/// than the capacity, whatever the window held before.
pub proof fn record_keeps_bounds(w: Window, delta: u64)
    ensures
        w.record(delta).capacity == w.capacity,
        w.record(delta).bounded(),
{
}

/// A window of capacity zero holds nothing after any frame time, and its
/// three rates stay zero.
pub proof fn zero_capacity_holds_nothing(w: Window, delta: u64)
    requires
        w.capacity == 0,
    ensures
        w.record(delta).samples.len() == 0,
        w.record(delta).avg() == Ratio::zero(),
        w.record(delta).min() == Ratio::zero(),
        w.record(delta).max() == Ratio::zero(),
{
}

/// Eviction is oldest first: after any frame times, recorded in order, the
/// window holds exactly the most recent of all it has been given, as many as
/// its capacity allows, oldest first.
pub proof fn replay_keeps_newest(w: Window, deltas: Seq<u64>)
    requires
        w.bounded(),
    ensures
        w.replay(deltas).capacity == w.capacity,
        w.replay(deltas).samples == newest(w.samples + deltas, w.capacity),
    decreases deltas.len(),
{
    if deltas.len() == 0 {
        assert(w.samples + deltas =~= w.samples);
    } else {
        let front = deltas.drop_last();
        replay_keeps_newest(w, front);
        lemma_newest_push(w.samples + front, deltas.last(), w.capacity);
        assert((w.samples + front).push(deltas.last()) =~= w.samples + deltas);
    }
}

/// After `n` frame times a new window of capacity `c` holds `min(n, c)` of
/// them.
pub proof fn replay_fills_to_capacity(capacity: nat, deltas: Seq<u64>)
    ensures
        Window::empty(capacity).replay(deltas).samples.len() == if deltas.len() <= capacity {
            deltas.len()
        } else {
            capacity
        },
{
    let w = Window::empty(capacity);
    replay_keeps_newest(w, deltas);
    assert(w.samples + deltas =~= deltas);
}

/// A window that holds no frame time has the rates zero, zero and zero.
pub proof fn empty_window_rates(capacity: nat)
    ensures
        Window::empty(capacity).avg() == Ratio::zero(),
        Window::empty(capacity).min() == Ratio::zero(),
        Window::empty(capacity).max() == Ratio::zero(),
{
}

/// Every rate of every window has a value: none is no events in no time,
/// the fraction that would stand for no number at all.
pub proof fn rates_are_defined(w: Window)
    ensures
        w.avg().is_defined(),
        w.min().is_defined(),
        w.max().is_defined(),
{
}

/// Of a window that is not empty: the mean rate is the number of samples
/// over their total time, the lowest rate is one over the longest frame time,
/// the highest is one over the shortest, and the mean lies between the two.
pub proof fn rates_of_window(w: Window)
    requires
        w.samples.len() > 0,
    ensures
        w.avg() == (Ratio { events: w.samples.len(), nanos: total(w.samples) }),
        w.min() == Ratio::once_per(longest(w.samples) as nat),
        w.max() == Ratio::once_per(shortest(w.samples) as nat),
        is_longest(w.samples, longest(w.samples)),
        is_shortest(w.samples, shortest(w.samples)),
        w.min().le(w.avg()),
        w.avg().le(w.max()),
{
    let s = w.samples;
    lemma_longest_exists(s);
    lemma_shortest_exists(s);
    lemma_total_between(s, shortest(s) as nat, longest(s) as nat);
    assert(1 * total(s) <= s.len() * longest(s)) by (nonlinear_arith)
        requires
            total(s) <= s.len() * (longest(s) as nat),
    ;
    assert(s.len() * shortest(s) <= 1 * total(s)) by (nonlinear_arith)
        requires
            s.len() * (shortest(s) as nat) <= total(s),
    ;
}

/// With a single frame time of `delta` nanoseconds in the window, all three
/// rates are one event per `delta` nanoseconds.
pub proof fn single_sample_rates(capacity: nat, delta: u64)
    requires
        capacity >= 1,
    ensures
        Window::empty(capacity).record(delta).samples == seq![delta],
        Window::empty(capacity).record(delta).avg() == Ratio::once_per(delta as nat),
        Window::empty(capacity).record(delta).min() == Ratio::once_per(delta as nat),
        Window::empty(capacity).record(delta).max() == Ratio::once_per(delta as nat),
{
    let s = Window::empty(capacity).record(delta).samples;
    assert(s =~= seq![delta]);
    assert(s[0] == delta);
    assert(total(s.drop_last()) == 0);
    assert(total(s) == delta as nat);
    lemma_longest_unique(s, delta);
    lemma_shortest_unique(s, delta);
}

} // verus!
