//! The sliding-window accumulator that cuts a stream into analysis windows.

use super::queue::FrameQueue;
use vstd::prelude::*;
use vstd::slice::{slice_subrange, slice_to_vec};

verus! {

/// Number of samples in one analysis window; also the transform size.
pub const FFT_SIZE: usize = 2048;

/// Number of samples by which consecutive windows are offset.
pub const FFT_STRIDE: usize = 512;

/// Number of positive-frequency bins of one transform.
pub const HALF_FFT_SIZE: usize = FFT_SIZE / 2;

/// The samples of one channel of an interleaved stereo buffer: sample `i` of
/// `channel` is element `2 * i + channel`. A trailing element without a
/// partner belongs to neither channel.
pub open spec fn deinterleaved<S>(interleaved: Seq<S>, channel: int) -> Seq<S> {
    Seq::new((interleaved.len() / 2) as nat, |i: int| interleaved[2 * i + channel])
}

/// Whether a channel buffer of `buffered` samples is long enough to be
/// analysed: one full window, the window shifted by one sample, and one
/// sample to spare.
pub open spec fn analysis_due(buffered: nat) -> bool {
    buffered >= FFT_SIZE + 2
}

/// The window that is analysed: the oldest `FFT_SIZE` samples of the buffer.
pub open spec fn window<S>(buffer: Seq<S>) -> Seq<S> {
    buffer.subrange(0, FFT_SIZE as int)
}

/// The same window moved on by one sample.
pub open spec fn shifted_window<S>(buffer: Seq<S>) -> Seq<S> {
    buffer.subrange(1, FFT_SIZE + 1)
}

/// What a channel buffer holds once an append has been dealt with: when an
/// analysis is due the oldest `FFT_STRIDE` samples have left, otherwise
/// everything stays.
pub open spec fn retained<S>(buffer: Seq<S>) -> Seq<S> {
    if analysis_due(buffer.len()) {
        buffer.skip(FFT_STRIDE as int)
    } else {
        buffer
    }
}

/// The two overlapping windows cut from one channel.
pub struct ChannelWindows<S> {
    /// Samples `0 .. FFT_SIZE` of the buffer.
    pub window: Vec<S>,
    /// Samples `1 .. FFT_SIZE + 1` of the buffer.
    pub shifted: Vec<S>,
}

impl<S> ChannelWindows<S> {
    /// Both windows hold exactly `FFT_SIZE` samples.
    pub open spec fn wf(&self) -> bool {
        &&& self.window@.len() == FFT_SIZE
        &&& self.shifted@.len() == FFT_SIZE
    }
}

/// The windows of both channels that one analysis works on, handed out by
/// [`StreamData::append`] when an analysis is due.
pub struct AnalysisJob<S> {
    pub left: ChannelWindows<S>,
    pub right: ChannelWindows<S>,
}

impl<S> AnalysisJob<S> {
    /// The windows of `channel`: 0 is the left one, 1 the right one.
    pub open spec fn channel(&self, channel: int) -> ChannelWindows<S> {
        if channel == 0 {
            self.left
        } else {
            self.right
        }
    }

    /// The windows of both channels have their full size.
    pub open spec fn wf(&self) -> bool {
        self.left.wf() && self.right.wf()
    }
}

/// What the transform of one channel's windows yields.
pub struct ChannelSpectrum<S, C> {
    /// Frequency-domain coefficients of the window, all `FFT_SIZE` of them.
    pub spectrum: Vec<C>,
    /// One phase rotation per positive-frequency bin.
    pub phase_derivative: Vec<S>,
}

impl<S, C> ChannelSpectrum<S, C> {
    /// There are `FFT_SIZE` coefficients and `HALF_FFT_SIZE` phase
    /// rotations.
    pub open spec fn wf(&self) -> bool {
        &&& self.spectrum@.len() == FFT_SIZE
        &&& self.phase_derivative@.len() == HALF_FFT_SIZE
    }
}

/// One analysis frame. Each field is indexed by channel.
pub struct AudioDataChunk<S, C> {
    /// Frequency-domain coefficients.
    pub spectrum: [Vec<C>; 2],
    /// The samples that were analysed, as they arrived.
    pub time_samples: [Vec<S>; 2],
    /// Phase rotation per positive-frequency bin.
    pub phase_derivative: [Vec<S>; 2],
}

/// The contents of an [`AudioDataChunk`]. Each field holds one sequence per
/// channel.
pub ghost struct ChunkView<S, C> {
    pub spectrum: Seq<Seq<C>>,
    pub time_samples: Seq<Seq<S>>,
    pub phase_derivative: Seq<Seq<S>>,
}

impl<S, C> ChunkView<S, C> {
    /// Two channels, with `FFT_SIZE` coefficients, `FFT_SIZE` samples and
    /// `HALF_FFT_SIZE` phase rotations each.
    pub open spec fn wf(&self) -> bool {
        &&& self.spectrum.len() == 2
        &&& self.time_samples.len() == 2
        &&& self.phase_derivative.len() == 2
        &&& self.spectrum[0].len() == FFT_SIZE
        &&& self.spectrum[1].len() == FFT_SIZE
        &&& self.time_samples[0].len() == FFT_SIZE
        &&& self.time_samples[1].len() == FFT_SIZE
        &&& self.phase_derivative[0].len() == HALF_FFT_SIZE
        &&& self.phase_derivative[1].len() == HALF_FFT_SIZE
    }
}

impl<S, C> View for AudioDataChunk<S, C> {
    type V = ChunkView<S, C>;

    open spec fn view(&self) -> ChunkView<S, C> {
        ChunkView {
            spectrum: self.spectrum@.map_values(|v: Vec<C>| v@),
            time_samples: self.time_samples@.map_values(|v: Vec<S>| v@),
            phase_derivative: self.phase_derivative@.map_values(|v: Vec<S>| v@),
        }
    }
}

/// The frame that is put together from the windows that were analysed and
/// the transform's results for the two channels: the time samples are the
/// windows as they were cut, without any taper applied.
pub open spec fn assembled<S, C>(
    job: AnalysisJob<S>,
    left: ChannelSpectrum<S, C>,
    right: ChannelSpectrum<S, C>,
) -> ChunkView<S, C> {
    ChunkView {
        spectrum: seq![left.spectrum@, right.spectrum@],
        time_samples: seq![job.left.window@, job.right.window@],
        phase_derivative: seq![left.phase_derivative@, right.phase_derivative@],
    }
}

/// Appends the samples of `channel` in `data` to `buffer`.
fn extend_channel<S: Copy>(buffer: &mut Vec<S>, data: &[S], channel: usize)
    requires
        channel < 2,
    ensures
        final(buffer)@ == old(buffer)@ + deinterleaved(data@, channel as int),
{
    let ghost before = buffer@;
    let pairs = data.len() / 2;
    let mut i: usize = 0;
    while i < pairs
        invariant
            channel < 2,
            pairs == data@.len() / 2,
            2 * pairs <= data@.len() <= usize::MAX,
            i <= pairs,
            buffer@ == before + deinterleaved(data@, channel as int).take(i as int),
        decreases pairs - i,
    {
        buffer.push(data[2 * i + channel]);
        i += 1;
    }
}

/// Copies the two windows out of `buffer` and drops its oldest `FFT_STRIDE`
/// samples.
fn cut_windows<S: Copy>(buffer: &mut Vec<S>) -> (windows: ChannelWindows<S>)
    requires
        analysis_due(old(buffer)@.len()),
    ensures
        windows.window@ == window(old(buffer)@),
        windows.shifted@ == shifted_window(old(buffer)@),
        windows.wf(),
        final(buffer)@ == old(buffer)@.skip(FFT_STRIDE as int),
{
    let window = slice_to_vec(slice_subrange(buffer.as_slice(), 0, FFT_SIZE));
    let shifted = slice_to_vec(slice_subrange(buffer.as_slice(), 1, FFT_SIZE + 1));
    let rest = buffer.split_off(FFT_STRIDE);
    *buffer = rest;
    ChannelWindows { window, shifted }
}

/// The sliding-window accumulator of one stereo stream: a buffer of raw
/// samples per channel, and the queue of finished analysis frames.
///
/// `S` is the type of a sample, `C` that of a frequency-domain coefficient;
/// no sample's value is ever inspected here.
pub struct StreamData<S, C> {
    data: [Vec<S>; 2],
    fft_data: FrameQueue<AudioDataChunk<S, C>>,
}

impl<S, C> StreamData<S, C> {
    /// The raw samples buffered for `channel`, oldest first.
    pub closed spec fn buffer(&self, channel: int) -> Seq<S> {
        self.data@[channel]@
    }

    /// The frames that wait to be taken, oldest first.
    pub closed spec fn frames(&self) -> Seq<ChunkView<S, C>> {
        self.fft_data@.map_values(|chunk: AudioDataChunk<S, C>| chunk@)
    }

    /// Both channels have received the same number of samples, and every
    /// queued frame has its full size.
    pub closed spec fn wf(&self) -> bool {
        &&& self.buffer(0).len() == self.buffer(1).len()
        &&& forall|k: int| 0 <= k < self.frames().len() ==> (#[trigger] self.frames()[k]).wf()
    }

    /// Empty buffers and an empty queue.
    pub fn new() -> (stream: Self)
        ensures
            stream.wf(),
            stream.buffer(0) == Seq::<S>::empty(),
            stream.buffer(1) == Seq::<S>::empty(),
            stream.frames() == Seq::<ChunkView<S, C>>::empty(),
    {
        StreamData { data: [Vec::new(), Vec::new()], fft_data: FrameQueue::new() }
    }

    /// The number of samples buffered for each channel.
    pub fn buffered(&self) -> (samples: usize)
        requires
            self.wf(),
        ensures
            samples == self.buffer(0).len(),
            samples == self.buffer(1).len(),
    {
        self.data[0].len()
    }

    /// The number of frames that wait to be taken.
    pub fn queued(&self) -> (frames: usize)
        ensures
            frames == self.frames().len(),
    {
        self.fft_data.len()
    }

    /// Takes the oldest queued frame, or `None` when none is queued. Never
    /// waits for new data.
    pub fn take(&mut self) -> (chunk: Option<AudioDataChunk<S, C>>)
        requires
            old(self).wf(),
        ensures
            final(self).wf(),
            final(self).buffer(0) == old(self).buffer(0),
            final(self).buffer(1) == old(self).buffer(1),
            old(self).frames().len() == 0 ==> {
                &&& chunk is None
                &&& final(self).frames() == old(self).frames()
            },
            old(self).frames().len() > 0 ==> {
                &&& chunk is Some
                &&& chunk->0@ == old(self).frames()[0]
                &&& chunk->0@.wf()
                &&& final(self).frames() == old(self).frames().skip(1)
            },
    {
        let chunk = self.fft_data.pop();
        proof {
            if old(self).frames().len() > 0 {
                assert(self.frames() =~= old(self).frames().skip(1));
            }
        }
        chunk
    }
}

impl<S: Copy, C> StreamData<S, C> {
    /// Takes in a buffer of interleaved stereo samples and says whether an
    /// analysis is due.
    ///
    /// Each channel's samples are appended to its buffer in arrival order.
    /// If a buffer then holds at least `FFT_SIZE + 2` samples, the windows to
    /// analyse are copied out, the oldest `FFT_STRIDE` samples leave each
    /// buffer, and the windows are returned; the caller transforms them and
    /// hands the outcome to [`StreamData::complete`]. At most one analysis
    /// comes of one call, however much data arrived.
    pub fn append(&mut self, data: &[S]) -> (job: Option<AnalysisJob<S>>)
        requires
            old(self).wf(),
        ensures
            final(self).wf(),
            final(self).frames() == old(self).frames(),
            forall|j: int|
                0 <= j < 2 ==> #[trigger] final(self).buffer(j) == retained(
                    old(self).buffer(j) + deinterleaved(data@, j),
                ),
            job is Some <==> analysis_due(old(self).buffer(0).len() + data@.len() / 2),
            job matches Some(job) ==> forall|j: int|
                0 <= j < 2 ==> {
                    &&& (#[trigger] job.channel(j)).window@ == window(
                        old(self).buffer(j) + deinterleaved(data@, j),
                    )
                    &&& job.channel(j).shifted@ == shifted_window(
                        old(self).buffer(j) + deinterleaved(data@, j),
                    )
                    &&& job.channel(j).wf()
                },
    {
        extend_channel(&mut self.data[0], data, 0);
        extend_channel(&mut self.data[1], data, 1);
        let job = if self.data[0].len() >= FFT_SIZE + 2 {
            let left = cut_windows(&mut self.data[0]);
            let right = cut_windows(&mut self.data[1]);
            Some(AnalysisJob { left, right })
        } else {
            None
        };
        proof {
            assert(self.frames() == old(self).frames());
        }
        job
    }

    /// Queues the frame of an analysis that [`StreamData::append`] asked
    /// for: the transform's results for the two channels, together with the
    /// samples of `job` that were analysed.
    pub fn complete(
        &mut self,
        job: AnalysisJob<S>,
        left: ChannelSpectrum<S, C>,
        right: ChannelSpectrum<S, C>,
    )
        requires
            old(self).wf(),
            job.wf(),
            left.wf(),
            right.wf(),
        ensures
            final(self).wf(),
            final(self).buffer(0) == old(self).buffer(0),
            final(self).buffer(1) == old(self).buffer(1),
            final(self).frames() == old(self).frames().push(assembled(job, left, right)),
    {
        let chunk = AudioDataChunk {
            spectrum: [left.spectrum, right.spectrum],
            time_samples: [job.left.window, job.right.window],
            phase_derivative: [left.phase_derivative, right.phase_derivative],
        };
        proof {
            assert(chunk@.spectrum =~= assembled(job, left, right).spectrum);
            assert(chunk@.time_samples =~= assembled(job, left, right).time_samples);
            assert(chunk@.phase_derivative =~= assembled(job, left, right).phase_derivative);
        }
        self.fft_data.push(chunk);
        proof {
            assert(self.frames() =~= old(self).frames().push(assembled(job, left, right)));
        }
    }
}

/// The samples that a triggered analysis leaves in a channel buffer are
/// those that were there plus those that arrived, less `FFT_STRIDE`; and the
/// buffer is then shorter than `FFT_SIZE + FFT_STRIDE` exactly when fewer
/// than `FFT_SIZE + 2 * FFT_STRIDE` samples had come together.
pub proof fn lemma_overlap_length<S>(buffer: Seq<S>, arrived: Seq<S>)
    requires
        analysis_due((buffer + arrived).len()),
    ensures
        retained(buffer + arrived).len() == buffer.len() + arrived.len() - FFT_STRIDE,
        retained(buffer + arrived).len() < FFT_SIZE + FFT_STRIDE <==> buffer.len() + arrived.len()
            < FFT_SIZE + 2 * FFT_STRIDE,
{
}

/// Consecutive windows overlap: the last `FFT_SIZE - FFT_STRIDE` samples of
/// a window that was analysed stay at the front of the buffer, where the
/// next window begins.
pub proof fn lemma_windows_overlap<S>(buffer: Seq<S>)
    requires
        analysis_due(buffer.len()),
    ensures
        retained(buffer).take(FFT_SIZE - FFT_STRIDE) == window(buffer).skip(FFT_STRIDE as int),
{
    assert(retained(buffer).take(FFT_SIZE - FFT_STRIDE) =~= window(buffer).skip(
        FFT_STRIDE as int,
    ));
}

/// What one channel buffer holds after the appends `arrivals`, each given as
/// the samples that arrived for that channel, starting from an empty buffer.
pub open spec fn buffer_after<S>(arrivals: Seq<Seq<S>>) -> Seq<S>
    decreases arrivals.len(),
{
    if arrivals.len() == 0 {
        Seq::empty()
    } else {
        retained(buffer_after(arrivals.drop_last()) + arrivals.last())
    }
}

/// As long as no single append brings more than `FFT_STRIDE` samples for a
/// channel, its buffer never holds `FFT_SIZE + 2` samples or more once an
/// append has been dealt with, and so stays below `FFT_SIZE + FFT_STRIDE`.
pub proof fn lemma_buffer_stays_bounded<S>(arrivals: Seq<Seq<S>>)
    requires
        forall|k: int| 0 <= k < arrivals.len() ==> (#[trigger] arrivals[k]).len() <= FFT_STRIDE,
    ensures
        buffer_after(arrivals).len() < FFT_SIZE + 2,
        buffer_after(arrivals).len() < FFT_SIZE + FFT_STRIDE,
    decreases arrivals.len(),
{
    if arrivals.len() > 0 {
        lemma_buffer_stays_bounded(arrivals.drop_last());
    }
}

/// Everything that has arrived for a channel over the appends `arrivals`,
/// in order of arrival.
pub open spec fn history<S>(arrivals: Seq<Seq<S>>) -> Seq<S>
    decreases arrivals.len(),
{
    if arrivals.len() == 0 {
        Seq::empty()
    } else {
        history(arrivals.drop_last()) + arrivals.last()
    }
}

/// The number of analyses that the appends `arrivals` have triggered.
pub open spec fn analyses<S>(arrivals: Seq<Seq<S>>) -> nat
    decreases arrivals.len(),
{
    if arrivals.len() == 0 {
        0
    } else if analysis_due((buffer_after(arrivals.drop_last()) + arrivals.last()).len()) {
        analyses(arrivals.drop_last()) + 1
    } else {
        analyses(arrivals.drop_last())
    }
}

/// The window slides over the stream by a fixed hop: however the samples
/// were split over the appends, what a channel buffer holds is all that has
/// arrived but for `FFT_STRIDE` samples per analysis so far. The window of
/// analysis `k`, counted from zero, therefore begins at sample
/// `k * FFT_STRIDE` of the stream.
pub proof fn lemma_windows_advance_by_stride<S>(arrivals: Seq<Seq<S>>)
    ensures
        analyses(arrivals) * FFT_STRIDE <= history(arrivals).len(),
        buffer_after(arrivals) == history(arrivals).skip(analyses(arrivals) * FFT_STRIDE),
    decreases arrivals.len(),
{
    if arrivals.len() > 0 {
        lemma_windows_advance_by_stride(arrivals.drop_last());
    }
}

} // verus!
