//! The frontend's audio queue: the core's frames are resampled to the
//! device rate and buffered until the platform drains them; fast-forward
//! drops them.

use vstd::prelude::*;
use crate::common::audio::{lemma_resampler_steps, AudioFrame, AudioRingBuffer, Resampler};

verus! {

/// Capacity of the engine's queue in frames.
pub const ENGINE_BUFFER_FRAMES: usize = 4000;

/// Highest sample rate the frontend asks of the device.
pub const MAX_SAMPLE_RATE: u32 = 48_000;

/// Resampler plus queue.
pub struct AudioEngine {
    resampler: Resampler,
    queue: AudioRingBuffer,
    fast_forward: bool,
}

/// A resampler whose loop over one input frame ends and never overflows:
/// with different rates, the input rate is positive and the rates' sum
/// fits in `u32`.
pub open spec fn resampler_ok(r: Resampler) -> bool {
    &&& r.wf()
    &&& r matches Resampler::Nearest { sample_rate_in, sample_rate_out, .. } ==> sample_rate_in
        > 0 && sample_rate_in + sample_rate_out <= u32::MAX
}

/// Steps left before the resampler moves to the next input frame.
pub open spec fn frame_measure(r: Resampler) -> nat {
    match r {
        Resampler::Nearest { sample_rate_out, diff, .. } => if diff < sample_rate_out {
            (sample_rate_out - diff) as nat
        } else {
            0
        },
        Resampler::Passthrough => 0,
    }
}

pub proof fn lemma_step_ok(r: Resampler)
    requires
        resampler_ok(r),
    ensures
        resampler_ok(r.step().0),
        r.step().1.write_output || r.step().1.advance_input,
        !r.step().1.advance_input ==> frame_measure(r.step().0) < frame_measure(r),
{
    lemma_resampler_steps(r);
}

/// One input frame through the resampler: it is queued once per output
/// step (a full queue drops it) until the resampler moves on.
pub open spec fn run_frame(r: Resampler, q: Seq<AudioFrame>, cap: nat, f: AudioFrame) -> (
    Resampler,
    Seq<AudioFrame>,
)
    decreases frame_measure(r),
    when resampler_ok(r)
{
    let (r2, res) = r.step();
    let q2 = if res.write_output && q.len() < cap {
        q.push(f)
    } else {
        q
    };
    if res.advance_input {
        (r2, q2)
    } else {
        proof {
            lemma_step_ok(r);
        }
        run_frame(r2, q2, cap, f)
    }
}

proof fn lemma_run_frame_ok(r: Resampler, q: Seq<AudioFrame>, cap: nat, f: AudioFrame)
    requires
        resampler_ok(r),
        q.len() <= cap,
    ensures
        resampler_ok(run_frame(r, q, cap, f).0),
        run_frame(r, q, cap, f).1.len() <= cap,
    decreases frame_measure(r),
{
    lemma_step_ok(r);
    let (r2, res) = r.step();
    let q2 = if res.write_output && q.len() < cap {
        q.push(f)
    } else {
        q
    };
    if !res.advance_input {
        lemma_run_frame_ok(r2, q2, cap, f);
    }
}

/// A run of input frames, in order.
pub open spec fn run_frames(r: Resampler, q: Seq<AudioFrame>, cap: nat, fs: Seq<AudioFrame>) -> (
    Resampler,
    Seq<AudioFrame>,
)
    decreases fs.len(),
{
    if fs.len() == 0 {
        (r, q)
    } else {
        let (r1, q1) = run_frames(r, q, cap, fs.drop_last());
        run_frame(r1, q1, cap, fs.last())
    }
}

proof fn lemma_run_frames_ok(r: Resampler, q: Seq<AudioFrame>, cap: nat, fs: Seq<AudioFrame>)
    requires
        resampler_ok(r),
        q.len() <= cap,
    ensures
        resampler_ok(run_frames(r, q, cap, fs).0),
        run_frames(r, q, cap, fs).1.len() <= cap,
    decreases fs.len(),
{
    if fs.len() > 0 {
        lemma_run_frames_ok(r, q, cap, fs.drop_last());
        let (r1, q1) = run_frames(r, q, cap, fs.drop_last());
        lemma_run_frame_ok(r1, q1, cap, fs.last());
    }
}

impl AudioEngine {
    /// The resampler can run and the queue is intact.
    pub closed spec fn wf(&self) -> bool {
        &&& resampler_ok(self.resampler)
        &&& self.queue.wf()
        &&& self.queue.spec_capacity() == ENGINE_BUFFER_FRAMES
    }

    /// The resampler's state.
    pub closed spec fn resampler(&self) -> Resampler {
        self.resampler
    }

    /// The queued frames, oldest first.
    pub closed spec fn queued(&self) -> Seq<AudioFrame> {
        self.queue@
    }

    /// Whether fast-forward drops the input.
    pub closed spec fn fast_forwarding(&self) -> bool {
        self.fast_forward
    }

    /// An empty engine resampling from `sample_rate_in` to
    /// `sample_rate_out`; it can run when the rates are equal, or the input
    /// rate is positive and the sum of the rates fits in `u32`.
    pub fn new(sample_rate_in: u32, sample_rate_out: u32) -> (r: Self)
        ensures
            r.queued() == Seq::<AudioFrame>::empty(),
            !r.fast_forwarding(),
            sample_rate_in == sample_rate_out ==> r.resampler() == Resampler::Passthrough,
            sample_rate_in != sample_rate_out ==> r.resampler() == (Resampler::Nearest {
                sample_rate_in,
                sample_rate_out,
                diff: 0,
            }),
            sample_rate_in == sample_rate_out || (sample_rate_in > 0 && sample_rate_in
                + sample_rate_out <= u32::MAX) ==> r.wf(),
    {
        AudioEngine {
            resampler: Resampler::new(sample_rate_in, sample_rate_out),
            queue: AudioRingBuffer::new(ENGINE_BUFFER_FRAMES),
            fast_forward: false,
        }
    }

    /// Resamples one frame into the queue; nothing while fast-forwarding.
    pub fn process_frame(&mut self, frame: AudioFrame)
        requires
            old(self).wf(),
        ensures
            final(self).wf(),
            final(self).fast_forwarding() == old(self).fast_forwarding(),
            old(self).fast_forwarding() ==> final(self).resampler() == old(self).resampler()
                && final(self).queued() == old(self).queued(),
            !old(self).fast_forwarding() ==> (final(self).resampler(), final(self).queued())
                == run_frame(
                old(self).resampler(),
                old(self).queued(),
                ENGINE_BUFFER_FRAMES as nat,
                frame,
            ),
    {
        if self.fast_forward {
            return;
        }
        let ghost cap = ENGINE_BUFFER_FRAMES as nat;
        let ghost target = run_frame(self.resampler, self.queue@, cap, frame);
        let one: [AudioFrame; 1] = [frame];
        loop
            invariant_except_break
                run_frame(self.resampler, self.queue@, cap, frame) == target,
            invariant
                self.queue.wf(),
                self.queue.spec_capacity() == cap,
                resampler_ok(self.resampler),
                !self.fast_forward,
                one@ == seq![frame],
            ensures
                (self.resampler, self.queue@) == target,
            decreases frame_measure(self.resampler),
        {
            proof {
                lemma_step_ok(self.resampler);
                crate::common::audio::lemma_resampler_fits(self.resampler);
            }
            let ghost before = self.resampler;
            let ghost qb = self.queue@;
            let result = self.resampler.process(frame);
            if result.write_output {
                let _ = self.queue.push(&one);
            }
            proof {
                let q2 = if result.write_output && qb.len() < cap {
                    qb.push(frame)
                } else {
                    qb
                };
                assert(self.queue@ =~= q2);
                assert(run_frame(before, qb, cap, frame) == (if result.advance_input {
                    (self.resampler, q2)
                } else {
                    run_frame(self.resampler, q2, cap, frame)
                }));
            }
            if result.advance_input {
                break;
            }
        }
    }

    /// Resamples a run of frames; returns how many were consumed (all).
    pub fn process_batch(&mut self, frames: &[AudioFrame]) -> (r: usize)
        requires
            old(self).wf(),
        ensures
            r == frames@.len(),
            final(self).wf(),
            final(self).fast_forwarding() == old(self).fast_forwarding(),
            old(self).fast_forwarding() ==> final(self).resampler() == old(self).resampler()
                && final(self).queued() == old(self).queued(),
            !old(self).fast_forwarding() ==> (final(self).resampler(), final(self).queued())
                == run_frames(
                old(self).resampler(),
                old(self).queued(),
                ENGINE_BUFFER_FRAMES as nat,
                frames@,
            ),
    {
        let mut i: usize = 0;
        while i < frames.len()
            invariant
                0 <= i <= frames@.len(),
                self.wf(),
                self.fast_forwarding() == old(self).fast_forwarding(),
                old(self).fast_forwarding() ==> self.resampler() == old(self).resampler()
                    && self.queued() == old(self).queued(),
                !old(self).fast_forwarding() ==> (self.resampler(), self.queued()) == run_frames(
                    old(self).resampler(),
                    old(self).queued(),
                    ENGINE_BUFFER_FRAMES as nat,
                    frames@.take(i as int),
                ),
            decreases frames@.len() - i,
        {
            assert(frames@.take(i + 1).drop_last() =~= frames@.take(i as int));
            self.process_frame(frames[i]);
            i = i + 1;
        }
        assert(frames@.take(frames@.len() as int) =~= frames@);
        frames.len()
    }

    /// Moves up to `out.len()` queued frames into `out`, oldest first;
    /// returns how many.
    pub fn drain(&mut self, out: &mut [AudioFrame]) -> (r: usize)
        requires
            old(self).wf(),
        ensures
            final(self).wf(),
            r == if old(out)@.len() < old(self).queued().len() {
                old(out)@.len()
            } else {
                old(self).queued().len()
            },
            final(self).queued() == old(self).queued().skip(r as int),
            final(out)@.len() == old(out)@.len(),
            final(out)@.take(r as int) == old(self).queued().take(r as int),
            final(out)@.skip(r as int) == old(out)@.skip(r as int),
            final(self).resampler() == old(self).resampler(),
            final(self).fast_forwarding() == old(self).fast_forwarding(),
    {
        self.queue.pop(out)
    }

    /// Switches fast-forward.
    pub fn set_fast_forward(&mut self, enable: bool)
        requires
            old(self).wf(),
        ensures
            final(self).wf(),
            final(self).fast_forwarding() == enable,
            final(self).resampler() == old(self).resampler(),
            final(self).queued() == old(self).queued(),
    {
        self.fast_forward = enable;
    }

    /// Whether fast-forward is on.
    pub fn is_fast_forward(&self) -> (r: bool)
        ensures
            r == self.fast_forwarding(),
    {
        self.fast_forward
    }
}

/// With equal rates every frame is queued exactly once, while there is
/// room.
pub proof fn lemma_passthrough_queues_each_frame(q: Seq<AudioFrame>, cap: nat, f: AudioFrame)
    requires
        q.len() < cap,
    ensures
        run_frame(Resampler::Passthrough, q, cap, f) == (Resampler::Passthrough, q.push(f)),
{
}

/// The queue never holds more than its capacity, whatever the input.
pub proof fn lemma_queue_bounded(r: Resampler, q: Seq<AudioFrame>, fs: Seq<AudioFrame>)
    requires
        resampler_ok(r),
        q.len() <= ENGINE_BUFFER_FRAMES,
    ensures
        run_frames(r, q, ENGINE_BUFFER_FRAMES as nat, fs).1.len() <= ENGINE_BUFFER_FRAMES,
{
    lemma_run_frames_ok(r, q, ENGINE_BUFFER_FRAMES as nat, fs);
}

} // verus!
