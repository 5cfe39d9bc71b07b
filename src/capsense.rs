//! Capacitive-sense acquisition state: two alternating channels, their
//! filters, and the frames handed to the sample queue.
use vstd::prelude::*;
use crate::dsp_filter::{Max, MovingAverage, SAMPLE_COUNT, window_mean, seq_max, lemma_max_is_maximum, lemma_window_is_last_sixteen, sum_of};
use crate::queue::CapsenseWrite;

verus! {

pub const CHANNEL_COUNT: usize = 2;

/// Which electrode is being measured.
#[derive(Clone, Copy, PartialEq, Eq, Debug, Structural)]
pub enum CapsenseChannel {
    A,
    B,
}

impl CapsenseChannel {
    pub open spec fn spec_next(self) -> CapsenseChannel {
        match self {
            CapsenseChannel::A => CapsenseChannel::B,
            CapsenseChannel::B => CapsenseChannel::A,
        }
    }

    /// Slot of this channel in a two-channel array.
    pub open spec fn slot(self) -> int {
        match self {
            CapsenseChannel::A => 0,
            CapsenseChannel::B => 1,
        }
    }

    /// The cyclic successor: A then B then A again.
    pub fn next(&self) -> (r: Self)
        ensures
            r == self.spec_next(),
    {
        match *self {
            CapsenseChannel::A => CapsenseChannel::B,
            CapsenseChannel::B => CapsenseChannel::A,
        }
    }
}

/// One channel's filters: the moving average and the running maximum, fed
/// the same samples.
#[derive(Clone, Copy)]
pub struct CapsenseChannelData {
    average: MovingAverage,
    max: Max,
}

impl CapsenseChannelData {
    /// Every raw sample pushed to this channel, oldest first.
    pub closed spec fn history(&self) -> Seq<u16> {
        self.average.history()
    }

    pub closed spec fn mean(&self) -> u16 {
        self.average.filtered()
    }

    pub closed spec fn maximum(&self) -> u16 {
        self.max.value()
    }

    pub closed spec fn wf(&self) -> bool {
        &&& self.average.wf()
        &&& self.max.wf()
        &&& self.max.history() == self.average.history()
    }

    pub fn new() -> (r: Self)
        ensures
            r.wf(),
            r.history() == Seq::<u16>::empty(),
            r.mean() == 0,
            r.maximum() == 0,
    {
        CapsenseChannelData { average: MovingAverage::new(), max: Max::new() }
    }

    /// Feeds one raw sample to both filters.
    pub fn push(&mut self, value: u16)
        requires
            old(self).wf(),
        ensures
            final(self).wf(),
            final(self).history() == old(self).history().push(value),
            final(self).mean() as int == window_mean(final(self).history()),
            final(self).maximum() == seq_max(final(self).history()),
            final(self).maximum() == if value > old(self).maximum() { value } else { old(self).maximum() },
    {
        self.max.process(value);
        self.average.process(value);
        proof {
            self.max.lemma_value_is_seq_max();
        }
    }

    pub fn max(&self) -> (r: u16)
        requires
            self.wf(),
        ensures
            r == self.maximum(),
            r == seq_max(self.history()),
    {
        proof {
            self.max.lemma_value_is_seq_max();
        }
        self.max.current()
    }

    pub fn moving_average(&self) -> (r: u16)
        requires
            self.wf(),
        ensures
            r == self.mean(),
            r as int == window_mean(self.history()),
    {
        self.average.latest_filtered_value()
    }
}

impl Default for CapsenseChannelData {
    fn default() -> (r: Self)
        ensures
            r.wf(),
            r.history() == Seq::<u16>::empty(),
    {
        Self::new()
    }
}

/// After sixteen or more samples, a channel's mean is the truncating average
/// of exactly the sixteen most recent ones.
pub proof fn lemma_mean_of_last_sixteen(c: CapsenseChannelData)
    requires
        c.wf(),
        c.history().len() >= SAMPLE_COUNT,
    ensures
        c.mean() as int == sum_of(c.history().subrange(c.history().len() - SAMPLE_COUNT, c.history().len() as int)) / (SAMPLE_COUNT as int),
{
    lemma_window_is_last_sixteen(c.history());
    c.average.lemma_filtered_is_mean();
}

/// A channel's running maximum is the largest sample ever pushed to it, and
/// pushing more never lowers it.
pub proof fn lemma_max_is_largest_and_monotone(before: CapsenseChannelData, after: CapsenseChannelData)
    requires
        before.wf(),
        after.wf(),
        before.history().is_prefix_of(after.history()),
    ensures
        forall|i: int| 0 <= i < after.history().len() ==> #[trigger] after.history()[i] <= after.maximum(),
        after.history().len() > 0 ==> exists|i: int| 0 <= i < after.history().len() && #[trigger] after.history()[i] == after.maximum(),
        before.maximum() <= after.maximum(),
{
    lemma_max_is_maximum(after.max);
    lemma_max_is_maximum(before.max);
    before.max.lemma_value_is_seq_max();
    if before.history().len() > 0 {
        let i = choose|i: int| 0 <= i < before.history().len() && #[trigger] before.history()[i] == before.maximum();
        assert(after.history()[i] == before.history()[i]);
    }
}

/// A snapshot of both channels, taken once per A-then-B cycle.
#[derive(Clone, Copy)]
pub struct CapsenseData(pub [CapsenseChannelData; CHANNEL_COUNT]);


/// The channel measured by the capture numbered `k`, counting from zero,
/// when acquisition starts on channel A.
pub open spec fn channel_for_capture(k: nat) -> CapsenseChannel {
    if k % 2 == 0 {
        CapsenseChannel::A
    } else {
        CapsenseChannel::B
    }
}

/// Acquisition state: the channel being measured, both channels' filters, and
/// the producer end of the sample queue. The analog comparator and timers
/// that take the raw counts are driven by the caller.
pub struct Capsense {
    tx: CapsenseWrite,
    active_channel: CapsenseChannel,
    channels: [CapsenseChannelData; CHANNEL_COUNT],
    completed: Ghost<nat>,
}

impl Capsense {
    /// The producer end that frames are offered to.
    pub closed spec fn producer(&self) -> CapsenseWrite {
        self.tx
    }

    pub closed spec fn active(&self) -> CapsenseChannel {
        self.active_channel
    }

    /// Both channels' filters, A then B.
    pub closed spec fn channels(&self) -> Seq<CapsenseChannelData> {
        self.channels@
    }

    /// How many captures have completed.
    pub closed spec fn captures(&self) -> nat {
        self.completed@
    }

    pub closed spec fn wf(&self) -> bool {
        &&& self.channels@[0].wf()
        &&& self.channels@[1].wf()
        &&& self.active_channel == channel_for_capture(self.completed@)
    }

    pub fn new(tx: CapsenseWrite) -> (r: Self)
        ensures
            r.wf(),
            r.active() == CapsenseChannel::A,
            r.captures() == 0,
            r.channels().len() == CHANNEL_COUNT,
            r.channels()[0].history() == Seq::<u16>::empty(),
            r.channels()[1].history() == Seq::<u16>::empty(),
    {
        Capsense {
            tx,
            active_channel: CapsenseChannel::A,
            channels: [CapsenseChannelData::new(), CapsenseChannelData::new()],
            completed: Ghost(0),
        }
    }

    /// The channel whose electrode the comparator input must select before
    /// the timers are started.
    pub fn measure(&self) -> (r: CapsenseChannel)
        ensures
            r == self.active(),
    {
        self.active_channel
    }

    /// Feeds the raw count of the channel just measured into its filters and
    /// moves on to the other channel. When the channel just measured is B, the
    /// frame of both channels is returned for the queue.
    pub fn record(&mut self, raw: u16) -> (r: Option<CapsenseData>)
        requires
            old(self).wf(),
        ensures
            final(self).wf(),
            final(self).channels().len() == CHANNEL_COUNT,
            final(self).channels()[old(self).active().slot()].history() == old(self).channels()[old(
            self).active().slot()].history().push(raw),
            final(self).channels()[1 - old(self).active().slot()] == old(self).channels()[1 - old(
            self).active().slot()],
            final(self).active() == old(self).active().spec_next(),
            final(self).captures() == old(self).captures() + 1,
            final(self).producer() == old(self).producer(),
            old(self).active() == CapsenseChannel::A ==> r is None,
            old(self).active() == CapsenseChannel::B ==> r is Some && (r->0).0@ == final(
                self).channels(),
    {
        let i: usize = match self.active_channel {
            CapsenseChannel::A => 0,
            CapsenseChannel::B => 1,
        };
        let mut channel = self.channels[i];
        channel.push(raw);
        self.channels[i] = channel;
        let frame = match self.active_channel {
            CapsenseChannel::A => None,
            CapsenseChannel::B => Some(CapsenseData(self.channels)),
        };
        self.active_channel = self.active_channel.next();
        self.completed = Ghost(self.completed@ + 1);
        proof {
            let k = old(self).completed@;
            assert((k + 1) % 2 == if k % 2 == 0 { 1nat } else { 0nat });
        }
        frame
    }

    /// Records the raw count of the channel just measured; after a B capture
    /// the two-channel frame is offered to the queue, and dropped if the queue
    /// is full. Returns both channels' filters.
    pub fn capture(&mut self, raw: u16) -> (r: [CapsenseChannelData; CHANNEL_COUNT])
        requires
            old(self).wf(),
        ensures
            final(self).wf(),
            final(self).channels().len() == CHANNEL_COUNT,
            final(self).channels()[old(self).active().slot()].history() == old(self).channels()[old(
            self).active().slot()].history().push(raw),
            final(self).channels()[1 - old(self).active().slot()] == old(self).channels()[1 - old(
            self).active().slot()],
            final(self).active() == old(self).active().spec_next(),
            final(self).captures() == old(self).captures() + 1,
            r@ == final(self).channels(),
    {
        let frame = self.record(raw);
        match frame {
            Some(data) => {
                let _ = self.tx.write(data);
            },
            None => {},
        }
        self.channels
    }
}

/// Captures alternate A, B, A, B from the start, and a frame is produced on
/// exactly the captures of channel B: the second of each pair.
pub proof fn lemma_captures_alternate(c: Capsense, k: nat)
    requires
        c.wf(),
    ensures
        c.active() == channel_for_capture(c.captures()),
        channel_for_capture(0) == CapsenseChannel::A,
        channel_for_capture(k + 1) == channel_for_capture(k).spec_next(),
        (channel_for_capture(k) == CapsenseChannel::B) <==> k % 2 == 1,
{
}

} // verus!
