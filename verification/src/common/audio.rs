//! Audio base types: the stereo frame, a fixed-capacity FIFO ring buffer
//! and the nearest-neighbour resampler.

use vstd::prelude::*;

verus! {

/// One stereo sample pair.
#[derive(Debug, Clone, Copy, PartialEq, Eq, Structural)]
pub struct AudioFrame {
    /// Left channel.
    pub left: i16,
    /// Right channel.
    pub right: i16,
}

/// A fixed-capacity FIFO of audio frames over a circular buffer.
///
/// `push` writes all or nothing; `pop` reads as much as is buffered.
/// The buffer does no locking: concurrent users synchronise outside.
pub struct AudioRingBuffer {
    buffer: Vec<AudioFrame>,
    capacity: usize,
    read_pos: usize,
    write_pos: usize,
    filled: usize,
}

/// Position `k` slots after `base` on a ring of `cap` slots (`base, k < cap`).
pub open spec fn ring_index(base: int, k: int, cap: int) -> int {
    if base + k < cap { base + k } else { base + k - cap }
}

impl AudioRingBuffer {
    /// The internal invariant: positions inside the buffer, the write
    /// position `filled` slots after the read position.
    pub closed spec fn wf(&self) -> bool {
        &&& self.buffer@.len() == self.capacity
        &&& self.filled <= self.capacity
        &&& self.capacity == 0 ==> self.read_pos == 0 && self.write_pos == 0
        &&& self.capacity > 0 ==> {
            &&& self.read_pos < self.capacity
            &&& self.write_pos < self.capacity
            &&& self.write_pos == ring_index(
                self.read_pos as int,
                self.filled as int,
                self.capacity as int,
            ) || (self.filled == self.capacity && self.write_pos == self.read_pos)
        }
    }

    /// The buffered frames, oldest first.
    pub closed spec fn view(&self) -> Seq<AudioFrame> {
        Seq::new(
            self.filled as nat,
            |k: int| self.buffer@[ring_index(self.read_pos as int, k, self.capacity as int)],
        )
    }

    /// Total capacity in frames.
    pub closed spec fn spec_capacity(&self) -> nat {
        self.capacity as nat
    }

    /// An empty buffer of `capacity_frames` frames.
    pub fn new(capacity_frames: usize) -> (r: Self)
        ensures
            r.wf(),
            r.view() == Seq::<AudioFrame>::empty(),
            r.spec_capacity() == capacity_frames,
    {
        let mut buffer: Vec<AudioFrame> = Vec::new();
        let mut i: usize = 0;
        while i < capacity_frames
            invariant
                i <= capacity_frames,
                buffer@.len() == i,
            decreases capacity_frames - i,
        {
            buffer.push(AudioFrame { left: 0, right: 0 });
            i = i + 1;
        }
        let r = AudioRingBuffer { buffer, capacity: capacity_frames, read_pos: 0, write_pos: 0, filled: 0 };
        assert(r.view() =~= Seq::<AudioFrame>::empty());
        r
    }

    /// Appends all of `frames` when they fit, else nothing. Returns the
    /// number of frames written: `frames.len()` or 0.
    pub fn push(&mut self, frames: &[AudioFrame]) -> (r: usize)
        requires
            old(self).wf(),
        ensures
            final(self).wf(),
            final(self).spec_capacity() == old(self).spec_capacity(),
            frames@.len() <= old(self).spec_capacity() - old(self).view().len() ==> r
                == frames@.len() && final(self).view() == old(self).view() + frames@,
            frames@.len() > old(self).spec_capacity() - old(self).view().len() ==> r == 0
                && final(self).view() == old(self).view(),
    {
        if frames.len() > self.capacity - self.filled {
            return 0;
        }
        let ghost old_view = self.view();
        let n = frames.len();
        let mut i: usize = 0;
        while i < n
            invariant
                n == frames@.len(),
                i <= n,
                n <= self.capacity - self.filled,
                self.buffer@.len() == self.capacity,
                self.capacity == old(self).capacity,
                self.read_pos == old(self).read_pos,
                self.filled == old(self).filled,
                self.capacity > 0 ==> self.read_pos < self.capacity && self.write_pos < self.capacity
                    && self.write_pos == ring_index(
                    self.read_pos as int,
                    (self.filled + i) as int,
                    self.capacity as int,
                ) || (self.filled + i == self.capacity && self.write_pos == self.read_pos),
                self.capacity == 0 ==> self.read_pos == 0 && self.write_pos == 0 && n == 0,
                old_view == old(self).view(),
                forall|k: int|
                    0 <= k < self.filled ==> self.buffer@[ring_index(
                        self.read_pos as int,
                        k,
                        self.capacity as int,
                    )] == old_view[k],
                forall|k: int|
                    0 <= k < i ==> self.buffer@[ring_index(
                        self.read_pos as int,
                        self.filled + k,
                        self.capacity as int,
                    )] == frames@[k],
            decreases n - i,
        {
            let ghost wp = self.write_pos;
            self.buffer.set(self.write_pos, frames[i]);
            self.write_pos = self.write_pos + 1;
            if self.write_pos >= self.capacity {
                self.write_pos = 0;
            }
            i = i + 1;
            assert forall|k: int| 0 <= k < self.filled implies self.buffer@[ring_index(
                self.read_pos as int,
                k,
                self.capacity as int,
            )] == old_view[k] by {
                assert(ring_index(self.read_pos as int, k, self.capacity as int) != wp);
            }
            assert forall|k: int| 0 <= k < i implies self.buffer@[ring_index(
                self.read_pos as int,
                self.filled + k,
                self.capacity as int,
            )] == frames@[k] by {
                if k < i - 1 {
                    assert(ring_index(self.read_pos as int, self.filled + k, self.capacity as int)
                        != wp);
                }
            }
        }
        self.filled = self.filled + n;
        assert(self.view() =~= old_view + frames@);
        n
    }

    /// Moves up to `out.len()` of the oldest frames into the front of `out`
    /// and returns how many were moved; the rest of `out` is untouched.
    pub fn pop(&mut self, out: &mut [AudioFrame]) -> (r: usize)
        requires
            old(self).wf(),
        ensures
            final(self).wf(),
            final(self).spec_capacity() == old(self).spec_capacity(),
            r == (if old(out)@.len() < old(self).view().len() {
                old(out)@.len()
            } else {
                old(self).view().len()
            }),
            final(self).view() == old(self).view().skip(r as int),
            final(out)@.len() == old(out)@.len(),
            final(out)@.take(r as int) == old(self).view().take(r as int),
            final(out)@.skip(r as int) == old(out)@.skip(r as int),
    {
        let to_read = if out.len() < self.filled { out.len() } else { self.filled };
        if to_read == 0 {
            assert(self.view().skip(0) =~= self.view());
            assert(out@.take(0) =~= self.view().take(0));
            assert(out@.skip(0) =~= out@);
            return 0;
        }
        let ghost old_view = self.view();
        let ghost old_out = out@;
        let mut i: usize = 0;
        while i < to_read
            invariant
                i <= to_read,
                to_read <= out@.len(),
                to_read <= self.filled,
                self.capacity > 0,
                self.buffer@.len() == self.capacity,
                self.capacity == old(self).capacity,
                self.filled == old(self).filled,
                self.filled <= self.capacity,
                self.write_pos == old(self).write_pos,
                old(self).wf(),
                self.buffer == old(self).buffer,
                self.read_pos < self.capacity,
                self.read_pos == ring_index(old(self).read_pos as int, i as int, self.capacity as int),
                old(self).read_pos < self.capacity,
                old_view == old(self).view(),
                out@.len() == old_out.len(),
                forall|k: int| 0 <= k < i ==> out@[k] == old_view[k],
                forall|k: int| i <= k < out@.len() ==> out@[k] == old_out[k],
            decreases to_read - i,
        {
            out[i] = self.buffer[self.read_pos];
            self.read_pos = self.read_pos + 1;
            if self.read_pos >= self.capacity {
                self.read_pos = 0;
            }
            i = i + 1;
        }
        self.filled = self.filled - to_read;
        assert(self.view() =~= old_view.skip(to_read as int));
        assert(out@.take(to_read as int) =~= old_view.take(to_read as int));
        assert(out@.skip(to_read as int) =~= old_out.skip(to_read as int));
        to_read
    }

    /// Number of buffered frames.
    pub fn len(&self) -> (r: usize)
        requires
            self.wf(),
        ensures
            r == self.view().len(),
    {
        self.filled
    }

    /// Whether no frame is buffered.
    pub fn is_empty(&self) -> (r: bool)
        requires
            self.wf(),
        ensures
            r == (self.view().len() == 0),
    {
        self.filled == 0
    }

    /// Total capacity in frames.
    pub fn capacity(&self) -> (r: usize)
        ensures
            r == self.spec_capacity(),
    {
        self.capacity
    }
}

/// Audio resampler: passthrough for equal rates, nearest-neighbour
/// otherwise (frames are repeated when upsampling, skipped when
/// downsampling).
#[derive(Debug, Clone, Copy, PartialEq, Eq, Structural)]
pub enum Resampler {
    /// Input rate equals output rate: every frame written and consumed.
    Passthrough,
    /// Rates differ: a frame is written or skipped according to the
    /// accumulated rate difference.
    Nearest {
        /// Input rate (Hz).
        sample_rate_in: u32,
        /// Output rate (Hz).
        sample_rate_out: u32,
        /// Accumulated difference.
        diff: u32,
    },
}

/// What one resampler step asks of the caller.
#[derive(Debug, Clone, Copy, PartialEq, Eq, Structural)]
pub struct ResampleResult {
    /// Move on to the next input frame.
    pub advance_input: bool,
    /// Write the current frame to the output.
    pub write_output: bool,
}

/// The larger of two rates.
pub open spec fn rate_max(a: u32, b: u32) -> u32 {
    if a >= b { a } else { b }
}

impl Resampler {
    /// The accumulated difference stays below the larger rate.
    pub open spec fn wf(self) -> bool {
        match self {
            Resampler::Passthrough => true,
            Resampler::Nearest { sample_rate_in, sample_rate_out, diff } => diff < rate_max(
                sample_rate_in,
                sample_rate_out,
            ),
        }
    }

    /// Whether the next step computes without overflow.
    pub open spec fn step_fits(self) -> bool {
        match self {
            Resampler::Passthrough => true,
            Resampler::Nearest { sample_rate_in, sample_rate_out, diff } => diff < sample_rate_out
                ==> diff + sample_rate_in <= u32::MAX,
        }
    }

    /// One step: the state after it and the caller's instructions.
    pub open spec fn step(self) -> (Resampler, ResampleResult) {
        match self {
            Resampler::Passthrough => (
                Resampler::Passthrough,
                ResampleResult { advance_input: true, write_output: true },
            ),
            Resampler::Nearest { sample_rate_in, sample_rate_out, diff } => {
                let write = diff < sample_rate_out;
                let d1 = if write { diff + sample_rate_in } else { diff as int };
                let advance = d1 >= sample_rate_out;
                let d2 = if advance { d1 - sample_rate_out } else { d1 };
                (
                    Resampler::Nearest { sample_rate_in, sample_rate_out, diff: d2 as u32 },
                    ResampleResult { advance_input: advance, write_output: write },
                )
            },
        }
    }

    /// A passthrough resampler for equal rates, else a nearest-neighbour
    /// one starting from a zero difference.
    pub fn new(sample_rate_in: u32, sample_rate_out: u32) -> (r: Self)
        ensures
            r.wf(),
            r == started(sample_rate_in, sample_rate_out),
            sample_rate_in == sample_rate_out ==> r == Resampler::Passthrough,
            sample_rate_in != sample_rate_out ==> r == (Resampler::Nearest {
                sample_rate_in,
                sample_rate_out,
                diff: 0,
            }),
    {
        if sample_rate_in == sample_rate_out {
            Resampler::Passthrough
        } else {
            Resampler::Nearest { sample_rate_in, sample_rate_out, diff: 0 }
        }
    }

    /// Processes one call for the current input frame: whether to write it
    /// and whether to move on to the next one.
    pub fn process(&mut self, _frame: AudioFrame) -> (r: ResampleResult)
        requires
            old(self).step_fits(),
        ensures
            (*final(self), r) == old(self).step(),
            old(self).wf() ==> final(self).wf(),
    {
        match *self {
            Resampler::Passthrough => ResampleResult { advance_input: true, write_output: true },
            Resampler::Nearest { sample_rate_in, sample_rate_out, diff } => {
                let mut d = diff;
                let mut write_output = false;
                let mut advance_input = false;
                if d < sample_rate_out {
                    write_output = true;
                    d = d + sample_rate_in;
                }
                if d >= sample_rate_out {
                    advance_input = true;
                    d = d - sample_rate_out;
                }
                *self = Resampler::Nearest { sample_rate_in, sample_rate_out, diff: d };
                ResampleResult { advance_input, write_output }
            },
        }
    }
}

/// Every step writes or advances; upsampling writes every step (no input
/// frame is dropped) and downsampling advances every step (no frame is
/// written twice).
pub proof fn lemma_resampler_steps(r: Resampler)
    requires
        r.wf(),
    ensures
        r.step().1.write_output || r.step().1.advance_input,
        r.step().0.wf(),
        r matches Resampler::Nearest { sample_rate_in, sample_rate_out, .. } && sample_rate_in
            < sample_rate_out ==> r.step().1.write_output,
        r matches Resampler::Nearest { sample_rate_in, sample_rate_out, .. } && sample_rate_in
            > sample_rate_out ==> r.step().1.advance_input,
{
}

/// With rates whose sum fits in `u32`, a well-formed resampler can always
/// take its next step, and stays so.
pub proof fn lemma_resampler_fits(r: Resampler)
    requires
        r.wf(),
        r matches Resampler::Nearest { sample_rate_in, sample_rate_out, .. } ==> sample_rate_in
            + sample_rate_out <= u32::MAX,
    ensures
        r.step_fits(),
        r.step().0.step_fits(),
{
}

/// The resampler `Resampler::new(sample_rate_in, sample_rate_out)` makes.
pub open spec fn started(sample_rate_in: u32, sample_rate_out: u32) -> Resampler {
    if sample_rate_in == sample_rate_out {
        Resampler::Passthrough
    } else {
        Resampler::Nearest { sample_rate_in, sample_rate_out, diff: 0 }
    }
}

/// `n` steps from `r`: the state after them, and how many of them wrote a
/// frame and how many advanced the input.
pub open spec fn run(r: Resampler, n: nat) -> (Resampler, nat, nat)
    decreases n,
{
    if n == 0 {
        (r, 0, 0)
    } else {
        let (s, w, a) = run(r, (n - 1) as nat);
        let res = s.step().1;
        (
            s.step().0,
            w + if res.write_output { 1nat } else { 0nat },
            a + if res.advance_input { 1nat } else { 0nat },
        )
    }
}

/// The rate law over a run of calls from a new resampler whose rates sum
/// within `u32`: every call can be made (no overflow); with equal rates
/// every call writes and advances; otherwise, after `w` writes and `a`
/// advances, the accumulated difference is `w * in - a * out`, which stays
/// in `0 .. max(in, out)` (output frames follow `out / in` per input frame),
/// upsampling writes on every call and downsampling advances on every call.
pub proof fn lemma_resampler_run(sample_rate_in: u32, sample_rate_out: u32, n: nat)
    requires
        sample_rate_in + sample_rate_out <= u32::MAX,
    ensures
        ({
            let (s, w, a) = run(started(sample_rate_in, sample_rate_out), n);
            &&& s.wf()
            &&& s.step_fits()
            &&& sample_rate_in == sample_rate_out ==> s == Resampler::Passthrough && w == n && a
                == n
            &&& sample_rate_in != sample_rate_out ==> s == (Resampler::Nearest {
                sample_rate_in,
                sample_rate_out,
                diff: (w * sample_rate_in - a * sample_rate_out) as u32,
            })
            &&& sample_rate_in != sample_rate_out ==> 0 <= w * sample_rate_in - a * sample_rate_out
                < rate_max(sample_rate_in, sample_rate_out)
            &&& sample_rate_in < sample_rate_out ==> w == n
            &&& sample_rate_in > sample_rate_out ==> a == n
        }),
    decreases n,
{
    let i = sample_rate_in;
    let o = sample_rate_out;
    if n > 0 {
        lemma_resampler_run(i, o, (n - 1) as nat);
        let (s, w, a) = run(started(i, o), (n - 1) as nat);
        lemma_resampler_steps(s);
        lemma_resampler_fits(s);
        lemma_resampler_fits(s.step().0);
        if i != o {
            let res = s.step().1;
            let w2: int = w + if res.write_output { 1int } else { 0int };
            let a2: int = a + if res.advance_input { 1int } else { 0int };
            assert(w2 * i == w * i + if res.write_output { i as int } else { 0int })
                by (nonlinear_arith)
                requires
                    w2 == w + if res.write_output { 1int } else { 0int },
            ;
            assert(a2 * o == a * o + if res.advance_input { o as int } else { 0int })
                by (nonlinear_arith)
                requires
                    a2 == a + if res.advance_input { 1int } else { 0int },
            ;
        }
    } else {
        assert(0 * sample_rate_in == 0 && 0 * sample_rate_out == 0) by (nonlinear_arith);
    }
}

} // verus!
