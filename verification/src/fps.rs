//! The tracker itself.
use vstd::prelude::*;
use std::collections::VecDeque;
use std::time::Instant;
use crate::rate::Rate;
use crate::rate::Ratio;
use crate::std_specs::try_reserve;
use crate::window::Window;
use crate::window::highest_rate;
use crate::window::lemma_longest_unique;
use crate::window::lemma_shortest_unique;
use crate::window::lowest_rate;
use crate::window::mean_rate;
use crate::window::total;

verus! {

/// Tracks frames per second over a window of the most recent frame times.
///
/// Frame times are whole nanoseconds. One that does not fit in a `u64`
/// (more than 584 years) counts as `u64::MAX` nanoseconds.
///
/// At all times the window is within its capacity, and the three rates are
/// those of the window as the last frame time left it.
#[derive(Debug)]
pub struct Fps {
    window_len: usize,
    inner: Inner,
}

/// What changes from tick to tick.
#[derive(Debug)]
struct Inner {
    window: VecDeque<u64>,
    last: Instant,
    avg: Rate,
    min: Rate,
    max: Rate,
}

impl View for Fps {
    type V = Window;

    closed spec fn view(&self) -> Window {
        Window { capacity: self.window_len as nat, samples: self.inner.window@ }
    }
}

/// A measured time of `nanos` nanoseconds as a frame time: itself, or
/// `u64::MAX` if it is longer than that.
pub open spec fn saturated(nanos: u128) -> u64 {
    if nanos > u64::MAX {
        u64::MAX
    } else {
        nanos as u64
    }
}

impl Fps {
    /// The window length of `Fps::default()`.
    pub const DEFAULT_WINDOW_LEN: usize = 60;

    /// What holds of every tracker at every step: the window is within its
    /// capacity, and the rates held are those of the window.
    #[verifier::type_invariant]
    spec fn wf(&self) -> bool {
        &&& self@.bounded()
        &&& self.inner.rates_current(self@)
    }

    /// A tracker over the last `window_len` frame times, holding none yet.
    /// The larger the window, the smoother the rates.
    ///
    /// With `window_len == 0` the tracker never holds a frame time, and its
    /// rates stay zero.
    ///
    /// Room for the whole window is asked for at once. Where the allocator
    /// has none to give, the window grows as frame times arrive.
    pub fn with_window_len(window_len: usize) -> (fps: Self)
        ensures
            fps@ == Window::empty(window_len as nat),
    {
        let mut inner = Inner::idle(Instant::now());
        try_reserve(&mut inner.window, window_len);
        assert(inner.under(window_len) =~= Window::empty(window_len as nat));
        Fps { window_len, inner }
    }

    /// Call this once per frame. The time since the last call (since
    /// construction, for the first) becomes the newest frame time of the
    /// window, and the three rates follow.
    pub fn tick(&mut self)
        ensures
            final(self)@.capacity == old(self)@.capacity,
            exists|delta: u64| final(self)@ == #[trigger] old(self)@.record(delta),
    {
        proof {
            use_type_invariant(&*self);
        }
        let now = Instant::now();
        let elapsed = now.saturating_duration_since(self.inner.last);
        self.inner.last = now;
        assert(self@ == old(self)@);
        self.record(elapsed.as_nanos());
    }

    /// Takes a measured time of `nanos` nanoseconds as the newest frame time:
    /// the oldest leaves if the window is full, and the three rates are
    /// computed anew from the window. This is what `tick` does with the time
    /// it measured.
    pub fn record(&mut self, nanos: u128)
        ensures
            final(self)@.capacity == old(self)@.capacity,
            final(self)@ == old(self)@.record(saturated(nanos)),
    {
        let delta: u64 = if nanos > u64::MAX as u128 {
            u64::MAX
        } else {
            nanos as u64
        };
        // The rates lag behind the window while it changes, so the state is
        // taken out, brought up to date, and put back whole.
        let mut inner = Inner::idle(self.inner.last);
        std::mem::swap(&mut self.inner, &mut inner);
        inner.push(delta, self.window_len);
        self.inner = inner;
    }

    /// The mean rate over the window, as of the last frame time taken.
    pub fn avg(&self) -> (r: Rate)
        ensures
            r@ == self@.avg(),
    {
        proof {
            use_type_invariant(self);
        }
        self.inner.avg
    }

    /// The lowest rate in the window, as of the last frame time taken.
    pub fn min(&self) -> (r: Rate)
        ensures
            r@ == self@.min(),
    {
        proof {
            use_type_invariant(self);
        }
        self.inner.min
    }

    /// The highest rate in the window, as of the last frame time taken.
    pub fn max(&self) -> (r: Rate)
        ensures
            r@ == self@.max(),
    {
        proof {
            use_type_invariant(self);
        }
        self.inner.max
    }

    /// The number of frame times the window holds at most.
    pub fn window_len(&self) -> (n: usize)
        ensures
            n == self@.capacity,
    {
        self.window_len
    }

    /// The number of frame times the window holds now, never more than
    /// `window_len()`.
    pub fn len(&self) -> (n: usize)
        ensures
            n == self@.samples.len(),
            self@.bounded(),
    {
        proof {
            use_type_invariant(self);
        }
        self.inner.window.len()
    }
}

impl Inner {
    /// The three rates held are those of the window `w`.
    spec fn rates_current(&self, w: Window) -> bool {
        &&& self.avg@ == w.avg()
        &&& self.min@ == w.min()
        &&& self.max@ == w.max()
    }

    /// The window that holds `self.window` under the capacity `capacity`.
    spec fn under(&self, capacity: usize) -> Window {
        Window { capacity: capacity as nat, samples: self.window@ }
    }

    /// No frame time yet, the last tick at `last`.
    fn idle(last: Instant) -> (inner: Inner)
        ensures
            inner.window@ == Seq::<u64>::empty(),
            inner.last == last,
            inner.avg@ == Ratio::zero(),
            inner.min@ == Ratio::zero(),
            inner.max@ == Ratio::zero(),
    {
        Inner {
            window: VecDeque::new(),
            last,
            avg: Rate::zero(),
            min: Rate::zero(),
            max: Rate::zero(),
        }
    }

    /// Appends `delta` to the window, drops the oldest entries until no more
    /// than `capacity` are left, and computes the three rates anew.
    fn push(&mut self, delta: u64, capacity: usize)
        ensures
            final(self).last == old(self).last,
            final(self).under(capacity) == old(self).under(capacity).record(delta),
            final(self).rates_current(final(self).under(capacity)),
    {
        let ghost before = self.window@;
        let ghost mut dropped: int = 0;
        while self.window.len() >= capacity && self.window.len() > 0
            invariant
                self.last == old(self).last,
                before == old(self).window@,
                0 <= dropped <= before.len(),
                self.window@ == before.skip(dropped),
                dropped > 0 ==> self.window@.len() + 1 >= capacity,
            decreases self.window.len(),
        {
            self.window.pop_front();
            proof {
                dropped = dropped + 1;
            }
        }
        if self.window.len() < capacity {
            self.window.push_back(delta);
        }
        assert(self.window@ =~= old(self).under(capacity).record(delta).samples);
        self.avg = self.calc_avg();
        self.min = self.calc_min();
        self.max = self.calc_max();
    }

    /// The mean rate of the window as it stands.
    fn calc_avg(&self) -> (r: Rate)
        ensures
            r@ == mean_rate(self.window@),
    {
        let n = self.window.len();
        if n == 0 {
            return Rate::zero();
        }
        let mut sum: u128 = 0;
        let mut i: usize = 0;
        while i < n
            invariant
                i <= n,
                n == self.window@.len(),
                sum == total(self.window@.take(i as int)),
                sum <= i * u64::MAX,
            decreases n - i,
        {
            let d = self.window[i];
            proof {
                let next = self.window@.take(i + 1);
                assert(next.drop_last() =~= self.window@.take(i as int));
                assert(next.last() == d);
                assert((i + 1) * u64::MAX <= u128::MAX) by (nonlinear_arith)
                    requires
                        i + 1 <= 0xffff_ffff_ffff_ffff,
                ;
                assert((i + 1) * u64::MAX == i * u64::MAX + u64::MAX) by (nonlinear_arith);
            }
            sum = sum + d as u128;
            i = i + 1;
        }
        assert(self.window@.take(n as int) =~= self.window@);
        Rate { events: n as u64, nanos: sum }
    }

    /// The rate of the longest frame in the window as it stands.
    fn calc_min(&self) -> (r: Rate)
        ensures
            r@ == lowest_rate(self.window@),
    {
        let n = self.window.len();
        if n == 0 {
            return Rate::zero();
        }
        let mut slowest: u64 = self.window[0];
        let mut i: usize = 1;
        while i < n
            invariant
                0 < i <= n,
                n == self.window@.len(),
                exists|j: int| 0 <= j < i && self.window@[j] == slowest,
                forall|j: int| 0 <= j < i ==> self.window@[j] <= slowest,
            decreases n - i,
        {
            let d = self.window[i];
            if d > slowest {
                slowest = d;
            }
            i = i + 1;
        }
        proof {
            lemma_longest_unique(self.window@, slowest);
        }
        Rate::once_per(slowest)
    }

    /// The rate of the shortest frame in the window as it stands.
    fn calc_max(&self) -> (r: Rate)
        ensures
            r@ == highest_rate(self.window@),
    {
        let n = self.window.len();
        if n == 0 {
            return Rate::zero();
        }
        let mut fastest: u64 = self.window[0];
        let mut i: usize = 1;
        while i < n
            invariant
                0 < i <= n,
                n == self.window@.len(),
                exists|j: int| 0 <= j < i && self.window@[j] == fastest,
                forall|j: int| 0 <= j < i ==> fastest <= self.window@[j],
            decreases n - i,
        {
            let d = self.window[i];
            if d < fastest {
                fastest = d;
            }
            i = i + 1;
        }
        proof {
            lemma_shortest_unique(self.window@, fastest);
        }
        Rate::once_per(fastest)
    }
}

impl Clone for Fps {
    /// A tracker of its own with the same window, rates and last tick.
    fn clone(&self) -> (copy: Self)
        ensures
            copy@ == self@,
    {
        proof {
            use_type_invariant(self);
        }
        let window = self.inner.window.clone();
        assert(window@ =~= self.inner.window@);
        Fps {
            window_len: self.window_len,
            inner: Inner {
                window,
                last: self.inner.last,
                avg: self.inner.avg,
                min: self.inner.min,
                max: self.inner.max,
            },
        }
    }
}

impl Default for Fps {
    /// A tracker over the last `DEFAULT_WINDOW_LEN` frame times.
    fn default() -> (fps: Self)
        ensures
            fps@ == Window::empty(Fps::DEFAULT_WINDOW_LEN as nat),
    {
        Fps::with_window_len(Self::DEFAULT_WINDOW_LEN)
    }
}

} // verus!
