//! Moving-average and running-maximum filters over raw 16-bit samples.
use vstd::prelude::*;

verus! {

/// Number of samples in the moving-average window.
pub const SAMPLE_COUNT: usize = 16;

/// Sum of a sequence of samples, taken from the front.
pub open spec fn sum_of(s: Seq<u16>) -> int
    decreases s.len(),
{
    if s.len() == 0 {
        0
    } else {
        sum_of(s.drop_last()) + s.last() as int
    }
}

/// The window a filter sees after the samples `h` were pushed into a window
/// that started out as sixteen zeros: the last sixteen of `zeros ++ h`, oldest first.
pub open spec fn recent_window(h: Seq<u16>) -> Seq<u16> {
    let padded = Seq::new(SAMPLE_COUNT as nat, |i: int| 0u16) + h;
    padded.subrange(padded.len() - SAMPLE_COUNT, padded.len() as int)
}

/// The truncating integer average of the window after pushing `h`.
pub open spec fn window_mean(h: Seq<u16>) -> int {
    sum_of(recent_window(h)) / (SAMPLE_COUNT as int)
}

/// Largest value of `s`, or zero for an empty sequence.
pub open spec fn seq_max(s: Seq<u16>) -> u16
    decreases s.len(),
{
    if s.len() == 0 {
        0
    } else {
        let m = seq_max(s.drop_last());
        if s.last() > m {
            s.last()
        } else {
            m
        }
    }
}

pub proof fn lemma_sum_concat(a: Seq<u16>, b: Seq<u16>)
    ensures
        sum_of(a + b) == sum_of(a) + sum_of(b),
    decreases b.len(),
{
    if b.len() == 0 {
        assert(a + b =~= a);
    } else {
        lemma_sum_concat(a, b.drop_last());
        assert((a + b).drop_last() =~= a + b.drop_last());
    }
}

pub proof fn lemma_sum_bounds(s: Seq<u16>)
    ensures
        0 <= sum_of(s) <= s.len() * 65535,
    decreases s.len(),
{
    if s.len() > 0 {
        lemma_sum_bounds(s.drop_last());
    }
}

/// Summing a window read from its cursor around the ring gives the same total
/// as summing it in storage order.
proof fn lemma_sum_rotate(s: Seq<u16>, r: Seq<u16>, k: int)
    requires
        0 <= k < s.len(),
        r.len() == s.len(),
        forall|i: int| 0 <= i < s.len() ==> #[trigger] r[i] == s[(k + i) % (s.len() as int)],
    ensures
        sum_of(r) == sum_of(s),
{
    let n = s.len() as int;
    let lo = s.subrange(0, k);
    let hi = s.subrange(k, n);
    assert forall|i: int| 0 <= i < n implies #[trigger] r[i] == (hi + lo)[i] by {
        if k + i < n {
            assert((k + i) % n == k + i) by (nonlinear_arith)
                requires 0 <= k + i < n;
        } else {
            assert((k + i) % n == k + i - n) by (nonlinear_arith)
                requires n <= k + i < 2 * n;
        }
    }
    assert(r =~= hi + lo);
    assert(s =~= lo + hi);
    lemma_sum_concat(hi, lo);
    lemma_sum_concat(lo, hi);
}

proof fn lemma_seq_max_bounds(s: Seq<u16>)
    ensures
        forall|i: int| 0 <= i < s.len() ==> #[trigger] s[i] <= seq_max(s),
        s.len() > 0 ==> exists|i: int| 0 <= i < s.len() && #[trigger] s[i] == seq_max(s),
    decreases s.len(),
{
    if s.len() > 0 {
        let p = s.drop_last();
        lemma_seq_max_bounds(p);
        assert forall|i: int| 0 <= i < s.len() implies #[trigger] s[i] <= seq_max(s) by {
            if i < p.len() {
                assert(s[i] == p[i]);
            }
        }
        if s.last() > seq_max(p) || p.len() == 0 {
            assert(s[s.len() - 1] == s.last());
            if p.len() == 0 {
                assert(seq_max(p) == 0);
            }
        } else {
            let j = choose|j: int| 0 <= j < p.len() && #[trigger] p[j] == seq_max(p);
            assert(s[j] == p[j]);
        }
    }
}

/// Moving average over the last sixteen samples, recomputed in full on each sample.
#[derive(Clone, Copy)]
pub struct MovingAverage {
    window: [u16; SAMPLE_COUNT],
    previous_average: u16,
    position: u8,
    pushed: Ghost<Seq<u16>>,
}

impl MovingAverage {
    /// Every sample pushed so far, oldest first.
    pub closed spec fn history(&self) -> Seq<u16> {
        self.pushed@
    }

    /// The value most recently computed by `process` (zero before any sample).
    pub closed spec fn filtered(&self) -> u16 {
        self.previous_average
    }

    /// The storage slot that the next sample overwrites.
    pub closed spec fn cursor(&self) -> int {
        self.position as int
    }

    /// The ring buffer in storage order.
    pub closed spec fn slots(&self) -> Seq<u16> {
        self.window@
    }

    pub closed spec fn wf(&self) -> bool {
        &&& self.position < SAMPLE_COUNT
        &&& forall|i: int|
            0 <= i < SAMPLE_COUNT ==> #[trigger] self.window@[(self.position + i) % (
            SAMPLE_COUNT as int)] == recent_window(self.pushed@)[i]
        &&& self.previous_average as int == window_mean(self.pushed@)
    }

    /// A well-formed filter holds the mean of its window.
    pub proof fn lemma_filtered_is_mean(&self)
        requires
            self.wf(),
        ensures
            self.filtered() as int == window_mean(self.history()),
    {
    }

    pub fn new() -> (r: Self)
        ensures
            r.wf(),
            r.history() == Seq::<u16>::empty(),
            r.filtered() == 0,
            r.cursor() == 0,
    {
        let r = MovingAverage {
            window: [0u16; SAMPLE_COUNT],
            previous_average: 0,
            position: 0,
            pushed: Ghost(Seq::empty()),
        };
        proof {
            let z = Seq::new(SAMPLE_COUNT as nat, |i: int| 0u16);
            assert(z + Seq::<u16>::empty() =~= z);
            assert(recent_window(Seq::empty()) =~= z);
            assert forall|i: int| 0 <= i < SAMPLE_COUNT implies #[trigger] r.window@[(0 + i) % (
            SAMPLE_COUNT as int)] == recent_window(Seq::<u16>::empty())[i] by {
                assert((0 + i) % (SAMPLE_COUNT as int) == i);
            }
            lemma_sum_zeros(z);
        }
        r
    }

    /// The raw sample stored at the cursor: the oldest sample of the window.
    pub fn latest_raw_value(&self) -> (r: u16)
        requires
            self.wf(),
        ensures
            r == self.slots()[self.cursor()],
            r == recent_window(self.history())[0],
    {
        proof {
            assert((self.position + 0) % (SAMPLE_COUNT as int) == self.position);
        }
        self.window[self.position as usize]
    }

    pub fn latest_filtered_value(&self) -> (r: u16)
        requires
            self.wf(),
        ensures
            r == self.filtered(),
            r as int == window_mean(self.history()),
    {
        self.previous_average
    }

    /// The ring buffer in storage order.
    pub fn window(&self) -> (r: &[u16])
        ensures
            r@ == self.slots(),
    {
        self.window.as_slice()
    }

    /// Stores `value`, advances the cursor and returns the truncating mean of
    /// the sixteen most recent samples.
    pub fn process(&mut self, value: u16) -> (r: u16)
        requires
            old(self).wf(),
        ensures
            final(self).wf(),
            final(self).history() == old(self).history().push(value),
            r == final(self).filtered(),
            r as int == window_mean(final(self).history()),
    {
        let ghost h = self.pushed@.push(value);
        let ghost p = self.position as int;
        self.window[self.position as usize] = value;
        self.advance();
        self.pushed = Ghost(h);
        proof {
            let n = SAMPLE_COUNT as int;
            let old_recent = recent_window(old(self).pushed@);
            let new_recent = recent_window(h);
            let z = Seq::new(SAMPLE_COUNT as nat, |i: int| 0u16);
            assert(z + h =~= (z + old(self).pushed@).push(value));
            assert(new_recent =~= old_recent.subrange(1, n).push(value));
            assert forall|i: int| 0 <= i < n implies #[trigger] self.window@[(self.position + i)
                % n] == new_recent[i] by {
                let q = (self.position + i) % n;
                assert((self.position + i) % n == (p + 1 + i) % n) by {
                    if p + 1 == n {
                        assert((p + 1 + i) % n == i) by (nonlinear_arith)
                            requires p + 1 == n, 0 <= i < n;
                        assert((0 + i) % n == i);
                    }
                }
                if i == n - 1 {
                    assert(q == p) by (nonlinear_arith)
                        requires q == (p + 1 + i) % n, i == n - 1, 0 <= p < n;
                } else {
                    assert(q == (p + (i + 1)) % n);
                    assert(q != p) by (nonlinear_arith)
                        requires q == (p + 1 + i) % n, 0 <= i < n - 1, 0 <= p < n;
                    assert(old(self).window@[(old(self).position + (i + 1)) % n] == old_recent[i
                        + 1]);
                }
            }
        }
        let mut sum: u32 = 0;
        let mut i: usize = 0;
        while i < SAMPLE_COUNT
            invariant
                i <= SAMPLE_COUNT,
                sum as int == sum_of(self.window@.subrange(0, i as int)),
            decreases SAMPLE_COUNT - i,
        {
            proof {
                let s = self.window@.subrange(0, i as int + 1);
                assert(s.drop_last() =~= self.window@.subrange(0, i as int));
                lemma_sum_bounds(self.window@.subrange(0, i as int));
            }
            sum = sum + self.window[i] as u32;
            i = i + 1;
        }
        proof {
            assert(self.window@.subrange(0, SAMPLE_COUNT as int) =~= self.window@);
            lemma_sum_rotate(self.window@, recent_window(h), self.position as int);
            lemma_sum_bounds(self.window@);
            assert(sum as int == sum_of(recent_window(h)));
            assert(sum / 16 <= 65535) by (nonlinear_arith)
                requires sum <= 16 * 65535;
        }
        let average = (sum / (SAMPLE_COUNT as u32)) as u16;
        self.previous_average = average;
        average
    }

    fn advance(&mut self)
        requires
            old(self).position < SAMPLE_COUNT,
        ensures
            final(self).position as int == (old(self).position as int + 1) % (SAMPLE_COUNT as int),
            final(self).window == old(self).window,
            final(self).previous_average == old(self).previous_average,
            final(self).pushed == old(self).pushed,
    {
        self.position = self.position + 1;
        if self.position >= SAMPLE_COUNT as u8 {
            self.position = 0;
        }
    }
}

proof fn lemma_sum_zeros(z: Seq<u16>)
    requires
        forall|i: int| 0 <= i < z.len() ==> #[trigger] z[i] == 0,
    ensures
        sum_of(z) == 0,
    decreases z.len(),
{
    if z.len() > 0 {
        lemma_sum_zeros(z.drop_last());
    }
}

impl Default for MovingAverage {
    fn default() -> (r: Self)
        ensures
            r.wf(),
            r.history() == Seq::<u16>::empty(),
            r.filtered() == 0,
    {
        Self::new()
    }
}

/// Running maximum of the samples seen so far, starting from zero.
#[derive(Clone, Copy)]
pub struct Max {
    current: u16,
    pushed: Ghost<Seq<u16>>,
}

impl Max {
    /// Every sample pushed so far, oldest first.
    pub closed spec fn history(&self) -> Seq<u16> {
        self.pushed@
    }

    pub closed spec fn value(&self) -> u16 {
        self.current
    }

    pub closed spec fn wf(&self) -> bool {
        self.current == seq_max(self.pushed@)
    }

    /// A well-formed maximum is the largest sample pushed.
    pub proof fn lemma_value_is_seq_max(&self)
        requires
            self.wf(),
        ensures
            self.value() == seq_max(self.history()),
    {
    }

    pub fn new() -> (r: Self)
        ensures
            r.wf(),
            r.history() == Seq::<u16>::empty(),
            r.value() == 0,
    {
        Max { current: 0, pushed: Ghost(Seq::empty()) }
    }

    /// Folds `value` into the maximum and returns the new maximum.
    pub fn process(&mut self, value: u16) -> (r: u16)
        requires
            old(self).wf(),
        ensures
            final(self).wf(),
            final(self).history() == old(self).history().push(value),
            r == final(self).value(),
            r == if value > old(self).value() { value } else { old(self).value() },
    {
        let max = if value > self.current {
            value
        } else {
            self.current
        };
        self.current = max;
        self.pushed = Ghost(self.pushed@.push(value));
        proof {
            assert(self.pushed@.drop_last() =~= old(self).pushed@);
        }
        max
    }

    pub fn current(&self) -> (r: u16)
        ensures
            r == self.value(),
    {
        self.current
    }
}

impl Default for Max {
    fn default() -> (r: Self)
        ensures
            r.wf(),
            r.history() == Seq::<u16>::empty(),
            r.value() == 0,
    {
        Self::new()
    }
}

/// The running maximum bounds every sample pushed, and is one of them once
/// anything was pushed.
pub proof fn lemma_max_is_maximum(m: Max)
    requires
        m.wf(),
    ensures
        forall|i: int| 0 <= i < m.history().len() ==> #[trigger] m.history()[i] <= m.value(),
        m.history().len() > 0 ==> exists|i: int|
            0 <= i < m.history().len() && #[trigger] m.history()[i] == m.value(),
{
    lemma_seq_max_bounds(m.history());
}

/// Once sixteen or more samples were pushed, the window is exactly the last
/// sixteen of them, so the mean is their truncating average.
pub proof fn lemma_window_is_last_sixteen(h: Seq<u16>)
    requires
        h.len() >= SAMPLE_COUNT,
    ensures
        recent_window(h) == h.subrange(h.len() - SAMPLE_COUNT, h.len() as int),
        window_mean(h) == sum_of(h.subrange(h.len() - SAMPLE_COUNT, h.len() as int)) / (
        SAMPLE_COUNT as int),
{
    let z = Seq::new(SAMPLE_COUNT as nat, |i: int| 0u16);
    let padded = z + h;
    assert(recent_window(h) =~= h.subrange(h.len() - SAMPLE_COUNT, h.len() as int));
}

} // verus!
