//! Graph descriptors: shared recipes with a sample rate and an output mode.

use vstd::prelude::*;
use crate::graph::{DspGraph, GraphInstance};
use crate::parameter::PARAMETER_QUEUE_CAPACITY;
use crate::stream::{stereo_frames, ticked, Iter};
use crate::timing::{frame_count, frames_in, lemma_frame_count_within_half_frame, NANOS_PER_SECOND};

verus! {

/// How a descriptor is played.
#[derive(Debug, Clone, Copy, PartialEq, Eq, Structural)]
pub enum SourceType {
    /// A finite sound of the given length, rendered ahead of playback.
    Static {
        /// The length of the sound, in nanoseconds.
        duration_nanos: u64,
    },
    /// An endless sound, pulled frame by frame while it plays.
    Dynamic,
}

/// Errors of the offline renderer.
#[derive(Debug, Clone, Copy, PartialEq, Eq, Structural)]
pub enum DspError {
    /// A finite render was asked of a `Dynamic` descriptor, which has no
    /// duration to bound it.
    ModeMismatch,
}

/// What a descriptor states: its recipe, sample rate and output mode.
pub struct Descriptor<D> {
    /// The recipe.
    pub graph: D,
    /// The sample rate, in hertz.
    pub sample_rate: u32,
    /// The output mode.
    pub source_type: SourceType,
}

/// A shared recipe for graph instances, with the sample rate and the mode
/// they are played at. Copies share the recipe; they never copy graph state.
pub struct DspSource<D> {
    dsp_graph: std::sync::Arc<D>,
    sample_rate: u32,
    source_type: SourceType,
}

impl<D> View for DspSource<D> {
    type V = Descriptor<D>;

    closed spec fn view(&self) -> Descriptor<D> {
        Descriptor { graph: *self.dsp_graph, sample_rate: self.sample_rate, source_type: self.source_type }
    }
}

/// Relies on `Arc::clone`: the new pointer shares the allocation, so it
/// holds the same value.
#[verifier::external_body]
fn clone_arc<D>(a: &std::sync::Arc<D>) -> (r: std::sync::Arc<D>)
    ensures
        *r == **a,
{
    std::sync::Arc::clone(a)
}

impl<D> Clone for DspSource<D> {
    fn clone(&self) -> Self {
        self.share()
    }
}

impl<D> DspSource<D> {
    /// A descriptor for `dsp_graph` at `sample_rate` hertz, played as
    /// `source_type` says.
    pub fn new(dsp_graph: D, sample_rate: u32, source_type: SourceType) -> (r: Self)
        ensures
            r@ == (Descriptor { graph: dsp_graph, sample_rate, source_type }),
    {
        DspSource { dsp_graph: std::sync::Arc::new(dsp_graph), sample_rate, source_type }
    }

    /// Another handle on the same recipe, with the same rate and mode.
    pub fn share(&self) -> (r: Self)
        ensures
            r@ == self@,
    {
        DspSource {
            dsp_graph: clone_arc(&self.dsp_graph),
            sample_rate: self.sample_rate,
            source_type: self.source_type,
        }
    }

    /// The sample rate, in hertz.
    pub fn sample_rate(&self) -> (r: u32)
        ensures
            r == self@.sample_rate,
    {
        self.sample_rate
    }

    /// The output mode.
    pub fn source_type(&self) -> (r: SourceType)
        ensures
            r == self@.source_type,
    {
        self.source_type
    }

    /// The recipe.
    pub fn dsp_graph(&self) -> (r: &D)
        ensures
            *r == self@.graph,
    {
        &*self.dsp_graph
    }
}

impl<D: DspGraph> DspSource<D> {
    /// Builds a fresh instance and wraps it in a stream at this descriptor's
    /// sample rate, with nothing applied and nothing waiting.
    pub fn into_iter(self) -> (r: Iter<D::Unit>)
        ensures
            r.spec_sample_rate() == self@.sample_rate,
            r.unit() == self@.graph.instance(),
            r.pending() == Seq::<(u64, <D::Unit as GraphInstance>::Value)>::empty(),
            r.queue_capacity() == PARAMETER_QUEUE_CAPACITY,
    {
        Iter::new(self.dsp_graph.generate_graph(), self.sample_rate)
    }

    /// Renders a `Static` descriptor: builds one instance and pulls exactly
    /// `round(sample_rate * duration)` successive stereo frames from it. A
    /// `Dynamic` descriptor has no duration and is refused.
    pub fn render_frames(&self) -> (r: Result<Vec<<D::Unit as GraphInstance>::Frame>, DspError>)
        ensures
            result_view(r) == render_result(self@),
    {
        let duration_nanos = match self.source_type {
            SourceType::Static { duration_nanos } => duration_nanos,
            SourceType::Dynamic => {
                return Err(DspError::ModeMismatch);
            },
        };
        let n = frame_count(self.sample_rate, duration_nanos);
        let mut unit = self.dsp_graph.generate_graph();
        let ghost fresh = unit;
        let mut frames: Vec<<D::Unit as GraphInstance>::Frame> = Vec::new();
        let mut i: u128 = 0;
        while i < n
            invariant
                i <= n,
                fresh == self@.graph.instance(),
                unit == ticked(fresh, i as nat, false),
                frames@ == stereo_frames(fresh, 0, i as nat),
            decreases n - i,
        {
            let frame = unit.get_stereo();
            frames.push(frame);
            proof {
                assert(frames@ =~= stereo_frames(fresh, 0, (i + 1) as nat));
            }
            i = i + 1;
        }
        Ok(frames)
    }
}

/// A render's result, with its frames as a sequence.
pub open spec fn result_view<F>(r: Result<Vec<F>, DspError>) -> Result<Seq<F>, DspError> {
    match r {
        Ok(frames) => Ok(frames@),
        Err(e) => Err(e),
    }
}

/// What rendering a descriptor gives: for `Static`, the first
/// `round(sample_rate * duration)` stereo frames of a fresh instance; for
/// `Dynamic`, a mode mismatch.
pub open spec fn render_result<D: DspGraph>(d: Descriptor<D>) -> Result<
    Seq<<D::Unit as GraphInstance>::Frame>,
    DspError,
> {
    match d.source_type {
        SourceType::Static { duration_nanos } => Ok(
            stereo_frames(
                d.graph.instance(),
                0,
                frames_in(d.sample_rate as nat, duration_nanos as nat),
            ),
        ),
        SourceType::Dynamic => Err(DspError::ModeMismatch),
    }
}

/// Rendering a `Static` descriptor of duration `d` at rate `r` yields
/// `round(r * d)` frames, whose duration at `r` differs from `d` by at most
/// half a frame.
pub proof fn lemma_render_length<D: DspGraph>(d: Descriptor<D>, duration_nanos: u64)
    requires
        d.source_type == (SourceType::Static { duration_nanos }),
    ensures
        render_result(d) matches Ok(frames) && ({
            let c = frames.len();
            &&& c == frames_in(d.sample_rate as nat, duration_nanos as nat)
            &&& 2 * c * NANOS_PER_SECOND <= 2 * d.sample_rate * duration_nanos + NANOS_PER_SECOND
            &&& 2 * d.sample_rate * duration_nanos <= 2 * c * NANOS_PER_SECOND + NANOS_PER_SECOND
        }),
{
    let rate = d.sample_rate;
    lemma_frame_count_within_half_frame(rate as nat, duration_nanos as nat);
    let c = frames_in(rate as nat, duration_nanos as nat);
    assert(2 * c * NANOS_PER_SECOND == 2 * (c * NANOS_PER_SECOND)) by (nonlinear_arith);
    assert(2 * rate * duration_nanos == 2 * (rate * duration_nanos)) by (nonlinear_arith);
}

} // verus!
