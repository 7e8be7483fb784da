//! The per-engine adapters: what each audio engine asks of a descriptor or a
//! stream, in plain values. The engines' own types are built around these.

use vstd::prelude::*;
use crate::graph::{DspGraph, GraphInstance};
use crate::parameter::PARAMETER_QUEUE_CAPACITY;
use crate::source::{render_result, result_view, DspError, DspSource};
use crate::stream::{
    after_frames, apply_updates, lemma_after_frames_step, lemma_drained_state, mono_samples,
    pending_after, stereo_frames, ticked, Iter, IterMono,
};
use crate::timing::frames_in;

verus! {

/// The adapter for an engine that decodes sources into mono samples.
pub struct BevyAudioBackend;

impl BevyAudioBackend {
    /// The decoder of a descriptor: a mono stream over a fresh instance.
    pub fn decoder<D: DspGraph>(source: &DspSource<D>) -> (r: IterMono<D::Unit>)
        ensures
            r.spec_sample_rate() == source@.sample_rate,
            r.unit() == source@.graph.instance(),
            r.pending() == Seq::<(u64, <D::Unit as GraphInstance>::Value)>::empty(),
            r.queue_capacity() == PARAMETER_QUEUE_CAPACITY,
    {
        source.share().into_iter().into_mono()
    }

    /// The number of channels the decoder yields.
    pub fn channels() -> (r: u16)
        ensures
            r == 1,
    {
        1
    }

    /// The frames of a `Static` descriptor, to be packed as a sound file.
    pub fn convert_to_audio_source<D: DspGraph>(source: &DspSource<D>) -> (r: Result<
        Vec<<D::Unit as GraphInstance>::Frame>,
        DspError,
    >)
        ensures
            result_view(r) == render_result(source@),
    {
        source.render_frames()
    }
}

/// The adapter for an engine that pulls one frame per call, telling how much
/// time passed since the previous call.
pub struct KiraBackend;

impl KiraBackend {
    /// One call of the engine: fast-forwards by `dt_nanos` nanoseconds, then
    /// returns the next stereo frame.
    pub fn process<G: GraphInstance>(iter: &mut Iter<G>, dt_nanos: u64) -> (r: G::Frame)
        ensures
            final(iter).spec_sample_rate() == old(iter).spec_sample_rate(),
            final(iter).queue_capacity() == old(iter).queue_capacity(),
            r == ticked(
                apply_updates(old(iter).unit(), old(iter).pending()),
                frames_in(old(iter).spec_sample_rate() as nat, dt_nanos as nat),
                false,
            ).stereo_out(),
            final(iter).unit() == after_frames(
                old(iter).unit(),
                old(iter).pending(),
                frames_in(old(iter).spec_sample_rate() as nat, dt_nanos as nat) + 1,
                false,
            ),
            final(iter).pending() == Seq::<(u64, G::Value)>::empty(),
    {
        iter.process(dt_nanos)
    }

    /// A stream never finishes by itself.
    pub fn finished<G: GraphInstance>(iter: &Iter<G>) -> (r: bool)
        ensures
            !r,
    {
        false
    }
}

/// The adapter for an engine that fills buffers of frames.
pub struct OddioBackend;

impl OddioBackend {
    /// The frames of a `Static` descriptor: the first
    /// `round(sample_rate * duration)` frames of one fresh instance.
    pub fn convert_to_audio_source<D: DspGraph>(source: &DspSource<D>) -> (r: Result<
        Vec<<D::Unit as GraphInstance>::Frame>,
        DspError,
    >)
        ensures
            result_view(r) == render_result(source@),
    {
        source.render_frames()
    }

    /// One stereo buffer: fast-forwards by `interval_nanos` nanoseconds, then
    /// returns the next `count` frames.
    pub fn sample<G: GraphInstance>(iter: &mut Iter<G>, interval_nanos: u64, count: usize) -> (r: Vec<G::Frame>)
        ensures
            r@ == stereo_frames(
                apply_updates(old(iter).unit(), old(iter).pending()),
                frames_in(old(iter).spec_sample_rate() as nat, interval_nanos as nat),
                count as nat,
            ),
            final(iter).spec_sample_rate() == old(iter).spec_sample_rate(),
            final(iter).queue_capacity() == old(iter).queue_capacity(),
            final(iter).unit() == after_frames(
                old(iter).unit(),
                old(iter).pending(),
                (frames_in(old(iter).spec_sample_rate() as nat, interval_nanos as nat) + count) as nat,
                false,
            ),
            final(iter).pending() == pending_after(
                old(iter).pending(),
                (frames_in(old(iter).spec_sample_rate() as nat, interval_nanos as nat) + count) as nat,
            ),
    {
        iter.advance(interval_nanos);
        let ghost u = old(iter).unit();
        let ghost p = old(iter).pending();
        let ghost skipped = frames_in(old(iter).spec_sample_rate() as nat, interval_nanos as nat);
        let mut out: Vec<G::Frame> = Vec::new();
        let mut i: usize = 0;
        while i < count
            invariant
                i <= count,
                u == old(iter).unit(),
                p == old(iter).pending(),
                out@ == stereo_frames(apply_updates(u, p), skipped, i as nat),
                iter.spec_sample_rate() == old(iter).spec_sample_rate(),
                iter.queue_capacity() == old(iter).queue_capacity(),
                iter.unit() == after_frames(u, p, (skipped + i) as nat, false),
                iter.pending() == pending_after(p, (skipped + i) as nat),
            decreases count - i,
        {
            proof {
                lemma_drained_state(u, p, (skipped + i) as nat, false);
                lemma_after_frames_step(u, p, (skipped + i) as nat, false);
            }
            let frame = iter.next_frame();
            out.push(frame);
            proof {
                assert(out@ =~= stereo_frames(apply_updates(u, p), skipped, (i + 1) as nat));
            }
            i = i + 1;
        }
        out
    }

    /// One mono buffer: fast-forwards by `interval_nanos` nanoseconds through
    /// the mono accessor, then returns the next `count` mono samples.
    pub fn sample_mono<G: GraphInstance>(iter: &mut IterMono<G>, interval_nanos: u64, count: usize) -> (r: Vec<G::Mono>)
        ensures
            r@ == mono_samples(
                apply_updates(old(iter).unit(), old(iter).pending()),
                frames_in(old(iter).spec_sample_rate() as nat, interval_nanos as nat),
                count as nat,
            ),
            final(iter).spec_sample_rate() == old(iter).spec_sample_rate(),
            final(iter).queue_capacity() == old(iter).queue_capacity(),
            final(iter).unit() == after_frames(
                old(iter).unit(),
                old(iter).pending(),
                (frames_in(old(iter).spec_sample_rate() as nat, interval_nanos as nat) + count) as nat,
                true,
            ),
            final(iter).pending() == pending_after(
                old(iter).pending(),
                (frames_in(old(iter).spec_sample_rate() as nat, interval_nanos as nat) + count) as nat,
            ),
    {
        iter.advance(interval_nanos);
        let ghost u = old(iter).unit();
        let ghost p = old(iter).pending();
        let ghost skipped = frames_in(old(iter).spec_sample_rate() as nat, interval_nanos as nat);
        let mut out: Vec<G::Mono> = Vec::new();
        let mut i: usize = 0;
        while i < count
            invariant
                i <= count,
                u == old(iter).unit(),
                p == old(iter).pending(),
                out@ == mono_samples(apply_updates(u, p), skipped, i as nat),
                iter.spec_sample_rate() == old(iter).spec_sample_rate(),
                iter.queue_capacity() == old(iter).queue_capacity(),
                iter.unit() == after_frames(u, p, (skipped + i) as nat, true),
                iter.pending() == pending_after(p, (skipped + i) as nat),
            decreases count - i,
        {
            proof {
                lemma_drained_state(u, p, (skipped + i) as nat, true);
                lemma_after_frames_step(u, p, (skipped + i) as nat, true);
            }
            let sample = iter.next_frame();
            out.push(sample);
            proof {
                assert(out@ =~= mono_samples(apply_updates(u, p), skipped, (i + 1) as nat));
            }
            i = i + 1;
        }
        out
    }
}

} // verus!
