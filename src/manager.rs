//! The registry of graph descriptors, keyed by graph identity.

use vstd::prelude::*;
use crate::graph::DspGraph;
use crate::source::{Descriptor, DspSource, SourceType};

verus! {

broadcast use vstd::std_specs::hash::group_hash_axioms;

/// The descriptor a lookup returns for `identity` in a registry whose
/// contents are `entries`.
pub open spec fn lookup_result<D>(
    entries: Map<u128, Descriptor<D>>,
    identity: u128,
    r: Option<DspSource<D>>,
) -> bool {
    match r {
        Some(source) => entries.contains_key(identity) && source@ == entries[identity],
        None => !entries.contains_key(identity),
    }
}

/// The registered descriptors, keyed by graph identity, and the sample rate
/// that new registrations take.
pub struct DspManager<D> {
    collection: std::collections::HashMap<u128, DspSource<D>>,
    sample_rate: u32,
}

impl<D> View for DspManager<D> {
    type V = Map<u128, Descriptor<D>>;

    closed spec fn view(&self) -> Map<u128, Descriptor<D>> {
        self.collection@.map_values(|s: DspSource<D>| s@)
    }
}

impl<D> DspManager<D> {
    /// The sample rate that `add_graph` registers at, in hertz.
    pub closed spec fn spec_sample_rate(&self) -> u32 {
        self.sample_rate
    }

    /// An empty registry whose registrations take `sample_rate`.
    pub fn new(sample_rate: u32) -> (r: Self)
        ensures
            r@ == Map::<u128, Descriptor<D>>::empty(),
            r.spec_sample_rate() == sample_rate,
    {
        let r = DspManager { collection: std::collections::HashMap::new(), sample_rate };
        assert(r@ =~= Map::<u128, Descriptor<D>>::empty());
        r
    }

    /// The sample rate that `add_graph` registers at, in hertz.
    pub fn sample_rate(&self) -> (r: u32)
        ensures
            r == self.spec_sample_rate(),
    {
        self.sample_rate
    }

    /// Registers `dsp_graph` under `identity` at `sample_rate`, played as
    /// `source_type` says; an earlier entry for `identity` is replaced.
    pub fn register(&mut self, identity: u128, dsp_graph: D, sample_rate: u32, source_type: SourceType)
        ensures
            final(self)@ == old(self)@.insert(
                identity,
                Descriptor { graph: dsp_graph, sample_rate, source_type },
            ),
            final(self).spec_sample_rate() == old(self).spec_sample_rate(),
    {
        let source = DspSource::new(dsp_graph, sample_rate, source_type);
        self.collection.insert(identity, source);
        assert(self@ =~= old(self)@.insert(
            identity,
            Descriptor { graph: dsp_graph, sample_rate, source_type },
        ));
    }

    /// The descriptor registered under `uuid`, if any.
    pub fn get_graph_by_id(&self, uuid: &u128) -> (r: Option<DspSource<D>>)
        ensures
            lookup_result(self@, *uuid, r),
    {
        match self.collection.get(uuid) {
            Some(source) => Some(source.share()),
            None => None,
        }
    }
}

impl<D: DspGraph> DspManager<D> {
    /// Registers `dsp_graph` under its own identity at the registry's sample
    /// rate, and returns that identity.
    pub fn add_graph(&mut self, dsp_graph: D, source_type: SourceType) -> (identity: u128)
        ensures
            identity == dsp_graph.spec_id(),
            final(self)@ == old(self)@.insert(
                identity,
                Descriptor { graph: dsp_graph, sample_rate: old(self).spec_sample_rate(), source_type },
            ),
            final(self).spec_sample_rate() == old(self).spec_sample_rate(),
    {
        let identity = dsp_graph.id();
        let sample_rate = self.sample_rate;
        self.register(identity, dsp_graph, sample_rate, source_type);
        identity
    }

    /// The descriptor registered under the identity of `dsp_graph`, if any.
    pub fn get_graph(&self, dsp_graph: D) -> (r: Option<DspSource<D>>)
        ensures
            lookup_result(self@, dsp_graph.spec_id(), r),
    {
        let identity = dsp_graph.id();
        self.get_graph_by_id(&identity)
    }
}

/// A lookup of an identity that was never registered finds nothing; a lookup
/// right after a registration finds a descriptor with exactly the registered
/// recipe, sample rate and output mode.
pub proof fn lemma_lookup_after_register<D>(
    entries: Map<u128, Descriptor<D>>,
    identity: u128,
    other: u128,
    graph: D,
    sample_rate: u32,
    source_type: SourceType,
    r: Option<DspSource<D>>,
    q: Option<DspSource<D>>,
)
    requires
        !entries.contains_key(other),
        other != identity,
        lookup_result(entries.insert(identity, Descriptor { graph, sample_rate, source_type }), identity, r),
        lookup_result(entries.insert(identity, Descriptor { graph, sample_rate, source_type }), other, q),
    ensures
        r matches Some(s) && s@.graph == graph && s@.sample_rate == sample_rate && s@.source_type == source_type,
        q is None,
{
}

/// Registering two recipes with the same identity keeps one entry, the
/// later one.
pub proof fn lemma_register_last_wins<D>(
    entries: Map<u128, Descriptor<D>>,
    identity: u128,
    first: Descriptor<D>,
    second: Descriptor<D>,
)
    ensures
        entries.insert(identity, first).insert(identity, second) == entries.insert(identity, second),
        entries.insert(identity, first).insert(identity, second).dom() == entries.dom().insert(identity),
{
    assert(entries.insert(identity, first).insert(identity, second) =~= entries.insert(identity, second));
}

} // verus!
