//! The two interfaces a graph provider implements.

use vstd::prelude::*;

verus! {

/// A running, stateful signal processor: one instance of a graph.
///
/// An instance produces one frame per sample tick and accepts updates of its
/// named parameters between ticks. It is modelled as a deterministic state
/// machine: the spec functions below say what each call returns and which
/// state it leaves behind.
pub trait GraphInstance: Sized {
    /// The value a parameter is set to.
    type Value;
    /// A multi-channel frame.
    type Frame;
    /// A single-channel sample.
    type Mono;

    /// The state after the parameter named by `tag` is set to `value`.
    spec fn with_parameter(&self, tag: u64, value: Self::Value) -> Self;

    /// The stereo frame the next stereo tick produces from this state.
    spec fn stereo_out(&self) -> Self::Frame;

    /// The state after one stereo tick.
    spec fn after_stereo(&self) -> Self;

    /// The mono sample the next mono tick produces from this state.
    spec fn mono_out(&self) -> Self::Mono;

    /// The state after one mono tick.
    spec fn after_mono(&self) -> Self;

    /// Sets the parameter named by `tag` to `value`.
    fn set_parameter(&mut self, tag: u64, value: Self::Value)
        ensures
            *final(self) == old(self).with_parameter(tag, value),
    ;

    /// Advances by one tick and returns the stereo frame produced.
    fn get_stereo(&mut self) -> (r: Self::Frame)
        ensures
            r == old(self).stereo_out(),
            *final(self) == old(self).after_stereo(),
    ;

    /// Advances by one tick and returns the mono sample produced.
    fn get_mono(&mut self) -> (r: Self::Mono)
        ensures
            r == old(self).mono_out(),
            *final(self) == old(self).after_mono(),
    ;
}

/// A recipe for graph instances, with the identity that registers it.
///
/// Different recipes must report different identities, even when they build
/// instances of the same type. Building an instance is pure computation: the
/// recipe always builds the same initial state.
pub trait DspGraph {
    /// The instances this recipe builds.
    type Unit: GraphInstance;

    /// The identity of this recipe.
    spec fn spec_id(&self) -> u128;

    /// The initial state of every instance this recipe builds.
    spec fn instance(&self) -> Self::Unit;

    /// The identity of this recipe.
    fn id(&self) -> (r: u128)
        ensures
            r == self.spec_id(),
    ;

    /// Builds a fresh instance.
    fn generate_graph(&self) -> (r: Self::Unit)
        ensures
            r == self.instance(),
    ;
}

} // verus!
