//! Streams: running graph instances pulled one frame at a time.

use vstd::prelude::*;
use crate::graph::GraphInstance;
use crate::parameter::{ChannelSaturated, ParameterQueue, PARAMETER_QUEUE_CAPACITY};
use crate::timing::{frame_count, frames_in};

verus! {

/// The state of an instance once the updates in `pending` are applied to it,
/// oldest first.
pub open spec fn apply_updates<G: GraphInstance>(u: G, pending: Seq<(u64, G::Value)>) -> G
    decreases pending.len(),
{
    if pending.len() == 0 {
        u
    } else {
        apply_updates(u, pending.drop_last()).with_parameter(pending.last().0, pending.last().1)
    }
}

/// The state after one tick, through the mono accessor when `mono` holds and
/// the stereo one otherwise.
pub open spec fn tick<G: GraphInstance>(u: G, mono: bool) -> G {
    if mono {
        u.after_mono()
    } else {
        u.after_stereo()
    }
}

/// The state after `n` ticks of one kind.
pub open spec fn ticked<G: GraphInstance>(u: G, n: nat, mono: bool) -> G
    decreases n,
{
    if n == 0 {
        u
    } else {
        tick(ticked(u, (n - 1) as nat, mono), mono)
    }
}

/// The state of an instance in state `u`, whose queue holds `pending`, once
/// `n` more frames have been produced: the waiting updates are applied before
/// the first of them.
pub open spec fn after_frames<G: GraphInstance>(
    u: G,
    pending: Seq<(u64, G::Value)>,
    n: nat,
    mono: bool,
) -> G {
    if n == 0 {
        u
    } else {
        ticked(apply_updates(u, pending), n, mono)
    }
}

/// What the queue holds once `n` more frames have been produced.
pub open spec fn pending_after<V>(pending: Seq<(u64, V)>, n: nat) -> Seq<(u64, V)> {
    if n == 0 {
        pending
    } else {
        Seq::empty()
    }
}

/// The `count` stereo frames an instance in state `u` produces after its
/// first `start` ticks.
pub open spec fn stereo_frames<G: GraphInstance>(u: G, start: nat, count: nat) -> Seq<G::Frame> {
    Seq::new(count, |i: int| ticked(u, start + i as nat, false).stereo_out())
}

/// The `count` mono samples an instance in state `u` produces after its
/// first `start` ticks.
pub open spec fn mono_samples<G: GraphInstance>(u: G, start: nat, count: nat) -> Seq<G::Mono> {
    Seq::new(count, |i: int| ticked(u, start + i as nat, true).mono_out())
}

/// The state after `n` single-frame steps, each of which applies the
/// waiting updates and then ticks once through the stereo accessor.
pub open spec fn repeat_state<G: GraphInstance>(u: G, pending: Seq<(u64, G::Value)>, n: nat) -> G
    decreases n,
{
    if n == 0 {
        u
    } else {
        repeat_state(apply_updates(u, pending).after_stereo(), Seq::empty(), (n - 1) as nat)
    }
}

/// The frame the last of `n` single-frame steps returns (`n >= 1`).
pub open spec fn repeat_last_frame<G: GraphInstance>(
    u: G,
    pending: Seq<(u64, G::Value)>,
    n: nat,
) -> G::Frame
    decreases n,
{
    if n <= 1 {
        apply_updates(u, pending).stereo_out()
    } else {
        repeat_last_frame(apply_updates(u, pending).after_stereo(), Seq::empty(), (n - 1) as nat)
    }
}

/// Producing one frame applies the waiting updates and ticks once.
pub proof fn lemma_one_frame<G: GraphInstance>(u: G, pending: Seq<(u64, G::Value)>, mono: bool)
    ensures
        after_frames(u, pending, 1, mono) == tick(apply_updates(u, pending), mono),
{
    let a = apply_updates(u, pending);
    assert(ticked(a, 0, mono) == a);
    assert(ticked(a, 1, mono) == tick(ticked(a, 0, mono), mono));
}

/// Once `k` frames are produced, applying what is still waiting leaves the
/// instance where `k` ticks after the first drain leave it.
pub proof fn lemma_drained_state<G: GraphInstance>(
    u: G,
    pending: Seq<(u64, G::Value)>,
    k: nat,
    mono: bool,
)
    ensures
        apply_updates(after_frames(u, pending, k, mono), pending_after(pending, k))
            == ticked(apply_updates(u, pending), k, mono),
{
}

/// Producing `k` frames and then one more is producing `k + 1` frames.
pub proof fn lemma_after_frames_step<G: GraphInstance>(
    u: G,
    pending: Seq<(u64, G::Value)>,
    k: nat,
    mono: bool,
)
    ensures
        tick(apply_updates(after_frames(u, pending, k, mono), pending_after(pending, k)), mono)
            == after_frames(u, pending, k + 1, mono),
        after_frames(after_frames(u, pending, k, mono), pending_after(pending, k), 1, mono)
            == after_frames(u, pending, k + 1, mono),
        pending_after(pending_after(pending, k), 1) == pending_after(pending, k + 1),
{
    lemma_drained_state(u, pending, k, mono);
    lemma_one_frame(after_frames(u, pending, k, mono), pending_after(pending, k), mono);
    assert(ticked(apply_updates(u, pending), k + 1, mono) == tick(
        ticked(apply_updates(u, pending), k, mono),
        mono,
    ));
}

/// Ticking once and then `n` times is ticking `n + 1` times.
pub proof fn lemma_ticked_shift<G: GraphInstance>(u: G, n: nat, mono: bool)
    ensures
        ticked(tick(u, mono), n, mono) == ticked(u, n + 1, mono),
    decreases n,
{
    if n == 0 {
        assert(ticked(u, 0, mono) == u);
        assert(ticked(u, 1, mono) == tick(ticked(u, 0, mono), mono));
    } else {
        lemma_ticked_shift(u, (n - 1) as nat, mono);
        assert(ticked(tick(u, mono), n, mono) == tick(ticked(tick(u, mono), (n - 1) as nat, mono), mono));
        assert(ticked(u, n + 1, mono) == tick(ticked(u, n, mono), mono));
    }
}

/// `n` frames produced at once leave the instance where `n` single-frame
/// steps leave it, and the last frame is the one that the `n`-th step
/// returns.
pub proof fn lemma_repeat_frames<G: GraphInstance>(u: G, pending: Seq<(u64, G::Value)>, n: nat)
    ensures
        repeat_state(u, pending, n) == after_frames(u, pending, n, false),
        n >= 1 ==> repeat_last_frame(u, pending, n) == ticked(
            apply_updates(u, pending),
            (n - 1) as nat,
            false,
        ).stereo_out(),
    decreases n,
{
    if n > 0 {
        let a = apply_updates(u, pending);
        let s1 = a.after_stereo();
        let empty = Seq::<(u64, G::Value)>::empty();
        lemma_repeat_frames(s1, empty, (n - 1) as nat);
        assert(apply_updates(s1, empty) == s1);
        lemma_ticked_shift(a, (n - 1) as nat, false);
        if n > 1 {
            lemma_ticked_shift(a, (n - 2) as nat, false);
        }
    }
}

/// A graph whose frame does not change from one tick to the next yields the
/// same frame at every tick.
pub proof fn lemma_constant_graph_repeats<G: GraphInstance>(u: G, n: nat)
    requires
        forall|s: G| #[trigger] s.after_stereo().stereo_out() == s.stereo_out(),
    ensures
        stereo_frames(u, 0, n) == Seq::new(n, |i: int| u.stereo_out()),
{
    assert forall|i: int| 0 <= i < n implies #[trigger] ticked(u, i as nat, false).stereo_out()
        == u.stereo_out() by {
        lemma_constant_ticks(u, i as nat);
    }
    assert(stereo_frames(u, 0, n) =~= Seq::new(n, |i: int| u.stereo_out()));
}

proof fn lemma_constant_ticks<G: GraphInstance>(u: G, k: nat)
    requires
        forall|s: G| #[trigger] s.after_stereo().stereo_out() == s.stereo_out(),
    ensures
        ticked(u, k, false).stereo_out() == u.stereo_out(),
    decreases k,
{
    if k > 0 {
        lemma_constant_ticks(u, (k - 1) as nat);
        assert(ticked(u, k, false) == ticked(u, (k - 1) as nat, false).after_stereo());
    }
}

/// An update queued with `set` takes effect exactly at the next frame: that
/// frame comes from the state with every earlier update applied and then
/// this one.
pub proof fn lemma_update_applies_from_next_frame<G: GraphInstance>(
    u: G,
    pending: Seq<(u64, G::Value)>,
    tag: u64,
    value: G::Value,
)
    ensures
        apply_updates(u, pending.push((tag, value))) == apply_updates(u, pending).with_parameter(
            tag,
            value,
        ),
{
    assert(pending.push((tag, value)).drop_last() =~= pending);
}

/// Fast-forwarding by `dt_nanos` nanoseconds and then producing one frame
/// returns the same frame, and leaves the instance in the same state, as
/// producing `round(rate * dt) + 1` frames one by one and keeping the last.
pub proof fn lemma_advance_then_next_frame<G: GraphInstance>(
    u: G,
    pending: Seq<(u64, G::Value)>,
    rate: u32,
    dt_nanos: u64,
)
    ensures
        ({
            let n = frames_in(rate as nat, dt_nanos as nat);
            let skipped = after_frames(u, pending, n, false);
            let rest = pending_after(pending, n);
            &&& apply_updates(skipped, rest).stereo_out() == repeat_last_frame(u, pending, n + 1)
            &&& apply_updates(skipped, rest).after_stereo() == repeat_state(u, pending, n + 1)
        }),
{
    let n = frames_in(rate as nat, dt_nanos as nat);
    lemma_drained_state(u, pending, n, false);
    lemma_after_frames_step(u, pending, n, false);
    lemma_repeat_frames(u, pending, n + 1);
}

/// A running graph instance pulled one stereo frame at a time.
///
/// The stream never ends. Parameter updates sent through `set` wait in a
/// bounded queue and are applied, in arrival order, right before the next
/// frame is produced.
pub struct Iter<G: GraphInstance> {
    sample_rate: u32,
    audio_unit: G,
    updates: ParameterQueue<G::Value>,
}

impl<G: GraphInstance> Iter<G> {
    /// The current state of the instance.
    pub closed spec fn unit(&self) -> G {
        self.audio_unit
    }

    /// The updates waiting to be applied, oldest first.
    pub closed spec fn pending(&self) -> Seq<(u64, G::Value)> {
        self.updates@
    }

    /// The number of updates the queue holds at most.
    pub closed spec fn queue_capacity(&self) -> nat {
        self.updates.spec_capacity()
    }

    /// The sample rate, in hertz.
    pub closed spec fn spec_sample_rate(&self) -> u32 {
        self.sample_rate
    }

    /// A stream over `audio_unit`, with nothing waiting.
    pub fn new(audio_unit: G, sample_rate: u32) -> (r: Self)
        ensures
            r.spec_sample_rate() == sample_rate,
            r.unit() == audio_unit,
            r.pending() == Seq::<(u64, G::Value)>::empty(),
            r.queue_capacity() == PARAMETER_QUEUE_CAPACITY,
    {
        Iter { sample_rate, audio_unit, updates: ParameterQueue::new(PARAMETER_QUEUE_CAPACITY) }
    }

    /// The sample rate, in hertz.
    pub fn sample_rate(&self) -> (r: u32)
        ensures
            r == self.spec_sample_rate(),
    {
        self.sample_rate
    }

    /// Queues an update of the parameter named by `tag`, or reports
    /// saturation when the queue is full. Nothing is applied yet.
    pub fn set(&mut self, tag: u64, value: G::Value) -> (r: Result<(), ChannelSaturated>)
        ensures
            final(self).spec_sample_rate() == old(self).spec_sample_rate(),
            final(self).queue_capacity() == old(self).queue_capacity(),
            final(self).unit() == old(self).unit(),
            old(self).pending().len() < old(self).queue_capacity() <==> r is Ok,
            r is Ok ==> final(self).pending() == old(self).pending().push((tag, value)),
            r is Err ==> final(self).pending() == old(self).pending(),
    {
        self.updates.try_push(tag, value)
    }

    /// Applies every waiting update to the instance, oldest first.
    fn drain(&mut self)
        ensures
            final(self).sample_rate == old(self).sample_rate,
            final(self).queue_capacity() == old(self).queue_capacity(),
            final(self).unit() == apply_updates(old(self).unit(), old(self).pending()),
            final(self).pending() == Seq::<(u64, G::Value)>::empty(),
    {
        let ghost start = self.audio_unit;
        let ghost queued = self.updates@;
        let ghost mut k: nat = 0;
        loop
            invariant
                self.sample_rate == old(self).sample_rate,
                self.queue_capacity() == old(self).queue_capacity(),
                start == old(self).unit(),
                queued == old(self).pending(),
                k <= queued.len(),
                self.updates@ == queued.skip(k as int),
                self.audio_unit == apply_updates(start, queued.take(k as int)),
            ensures
                self.sample_rate == old(self).sample_rate,
                self.queue_capacity() == old(self).queue_capacity(),
                self.updates@ == Seq::<(u64, G::Value)>::empty(),
                self.audio_unit == apply_updates(start, queued),
            decreases queued.len() - k,
        {
            match self.updates.pop() {
                Some(update) => {
                    let (tag, value) = update;
                    proof {
                        assert(queued.take(k + 1int).drop_last() =~= queued.take(k as int));
                        assert(queued.skip(k + 1int) =~= queued.skip(k as int).drop_first());
                        k = k + 1;
                    }
                    self.audio_unit.set_parameter(tag, value);
                },
                None => {
                    proof {
                        assert(queued.take(k as int) =~= queued);
                    }
                    break;
                },
            }
        }
    }

    /// Applies the waiting updates, then advances the instance by one tick
    /// and returns the stereo frame produced.
    pub fn next_frame(&mut self) -> (r: G::Frame)
        ensures
            final(self).spec_sample_rate() == old(self).spec_sample_rate(),
            final(self).queue_capacity() == old(self).queue_capacity(),
            r == apply_updates(old(self).unit(), old(self).pending()).stereo_out(),
            final(self).unit() == after_frames(old(self).unit(), old(self).pending(), 1, false),
            final(self).pending() == pending_after(old(self).pending(), 1),
    {
        proof {
            lemma_one_frame(old(self).unit(), old(self).pending(), false);
        }
        self.drain();
        self.audio_unit.get_stereo()
    }

    /// Applies the waiting updates, then advances the instance by one tick
    /// through its mono accessor.
    fn mono_frame(&mut self) -> (r: G::Mono)
        ensures
            final(self).sample_rate == old(self).sample_rate,
            final(self).queue_capacity() == old(self).queue_capacity(),
            r == apply_updates(old(self).unit(), old(self).pending()).mono_out(),
            final(self).unit() == after_frames(old(self).unit(), old(self).pending(), 1, true),
            final(self).pending() == pending_after(old(self).pending(), 1),
    {
        proof {
            lemma_one_frame(old(self).unit(), old(self).pending(), true);
        }
        self.drain();
        self.audio_unit.get_mono()
    }

    /// Produces and discards `n` frames, through the mono accessor when
    /// `mono` holds and the stereo one otherwise.
    fn discard(&mut self, n: u128, mono: bool)
        ensures
            final(self).sample_rate == old(self).sample_rate,
            final(self).queue_capacity() == old(self).queue_capacity(),
            final(self).unit() == after_frames(old(self).unit(), old(self).pending(), n as nat, mono),
            final(self).pending() == pending_after(old(self).pending(), n as nat),
    {
        let mut i: u128 = 0;
        while i < n
            invariant
                i <= n,
                self.sample_rate == old(self).sample_rate,
                self.queue_capacity() == old(self).queue_capacity(),
                self.unit() == after_frames(old(self).unit(), old(self).pending(), i as nat, mono),
                self.pending() == pending_after(old(self).pending(), i as nat),
            decreases n - i,
        {
            proof {
                lemma_after_frames_step(old(self).unit(), old(self).pending(), i as nat, mono);
            }
            if mono {
                self.mono_frame();
            } else {
                self.next_frame();
            }
            i = i + 1;
        }
    }

    /// The next stereo frame; a stream never runs out.
    pub fn next(&mut self) -> (r: Option<G::Frame>)
        ensures
            r == Some(apply_updates(old(self).unit(), old(self).pending()).stereo_out()),
            final(self).spec_sample_rate() == old(self).spec_sample_rate(),
            final(self).queue_capacity() == old(self).queue_capacity(),
            final(self).unit() == after_frames(old(self).unit(), old(self).pending(), 1, false),
            final(self).pending() == pending_after(old(self).pending(), 1),
    {
        Some(self.next_frame())
    }

    /// Discards the frames that `dt_nanos` nanoseconds span at the stream's
    /// sample rate, rounded to the nearest frame.
    pub fn advance(&mut self, dt_nanos: u64)
        ensures
            final(self).spec_sample_rate() == old(self).spec_sample_rate(),
            final(self).queue_capacity() == old(self).queue_capacity(),
            final(self).unit() == after_frames(
                old(self).unit(),
                old(self).pending(),
                frames_in(old(self).spec_sample_rate() as nat, dt_nanos as nat),
                false,
            ),
            final(self).pending() == pending_after(
                old(self).pending(),
                frames_in(old(self).spec_sample_rate() as nat, dt_nanos as nat),
            ),
    {
        let n = frame_count(self.sample_rate, dt_nanos);
        self.discard(n, false);
    }

    /// Fast-forwards by `dt_nanos` nanoseconds, then returns the next stereo
    /// frame: the frame of the last of `round(rate * dt) + 1` ticks.
    pub fn process(&mut self, dt_nanos: u64) -> (r: G::Frame)
        ensures
            final(self).spec_sample_rate() == old(self).spec_sample_rate(),
            final(self).queue_capacity() == old(self).queue_capacity(),
            r == ticked(
                apply_updates(old(self).unit(), old(self).pending()),
                frames_in(old(self).spec_sample_rate() as nat, dt_nanos as nat),
                false,
            ).stereo_out(),
            final(self).unit() == after_frames(
                old(self).unit(),
                old(self).pending(),
                frames_in(old(self).spec_sample_rate() as nat, dt_nanos as nat) + 1,
                false,
            ),
            final(self).pending() == Seq::<(u64, G::Value)>::empty(),
    {
        self.advance(dt_nanos);
        proof {
            let n = frames_in(old(self).spec_sample_rate() as nat, dt_nanos as nat);
            lemma_drained_state(old(self).unit(), old(self).pending(), n, false);
            lemma_after_frames_step(old(self).unit(), old(self).pending(), n, false);
        }
        self.next_frame()
    }

    /// Turns the stream into one that yields mono samples from the same
    /// instance.
    pub fn into_mono(self) -> (r: IterMono<G>)
        ensures
            r.spec_sample_rate() == self.spec_sample_rate(),
            r.queue_capacity() == self.queue_capacity(),
            r.unit() == self.unit(),
            r.pending() == self.pending(),
    {
        IterMono(self)
    }
}

/// A running graph instance pulled one mono sample at a time.
///
/// The samples come from the instance's own mono accessor, not from an
/// average of its stereo frames.
pub struct IterMono<G: GraphInstance>(Iter<G>);

impl<G: GraphInstance> IterMono<G> {
    /// The current state of the instance.
    pub closed spec fn unit(&self) -> G {
        self.0.unit()
    }

    /// The updates waiting to be applied, oldest first.
    pub closed spec fn pending(&self) -> Seq<(u64, G::Value)> {
        self.0.pending()
    }

    /// The number of updates the queue holds at most.
    pub closed spec fn queue_capacity(&self) -> nat {
        self.0.queue_capacity()
    }

    /// The sample rate, in hertz.
    pub closed spec fn spec_sample_rate(&self) -> u32 {
        self.0.spec_sample_rate()
    }

    /// The sample rate, in hertz.
    pub fn sample_rate(&self) -> (r: u32)
        ensures
            r == self.spec_sample_rate(),
    {
        self.0.sample_rate
    }

    /// Queues an update of the parameter named by `tag`, or reports
    /// saturation when the queue is full. Nothing is applied yet.
    pub fn set(&mut self, tag: u64, value: G::Value) -> (r: Result<(), ChannelSaturated>)
        ensures
            final(self).spec_sample_rate() == old(self).spec_sample_rate(),
            final(self).queue_capacity() == old(self).queue_capacity(),
            final(self).unit() == old(self).unit(),
            old(self).pending().len() < old(self).queue_capacity() <==> r is Ok,
            r is Ok ==> final(self).pending() == old(self).pending().push((tag, value)),
            r is Err ==> final(self).pending() == old(self).pending(),
    {
        self.0.set(tag, value)
    }

    /// Applies the waiting updates, then advances the instance by one tick
    /// through its mono accessor and returns the sample produced.
    pub fn next_frame(&mut self) -> (r: G::Mono)
        ensures
            final(self).spec_sample_rate() == old(self).spec_sample_rate(),
            final(self).queue_capacity() == old(self).queue_capacity(),
            r == apply_updates(old(self).unit(), old(self).pending()).mono_out(),
            final(self).unit() == after_frames(old(self).unit(), old(self).pending(), 1, true),
            final(self).pending() == pending_after(old(self).pending(), 1),
    {
        self.0.mono_frame()
    }

    /// The next mono sample; a stream never runs out.
    pub fn next(&mut self) -> (r: Option<G::Mono>)
        ensures
            r == Some(apply_updates(old(self).unit(), old(self).pending()).mono_out()),
            final(self).spec_sample_rate() == old(self).spec_sample_rate(),
            final(self).queue_capacity() == old(self).queue_capacity(),
            final(self).unit() == after_frames(old(self).unit(), old(self).pending(), 1, true),
            final(self).pending() == pending_after(old(self).pending(), 1),
    {
        Some(self.0.mono_frame())
    }

    /// Discards the samples that `dt_nanos` nanoseconds span at the stream's
    /// sample rate, rounded to the nearest sample, through the mono accessor.
    pub fn advance(&mut self, dt_nanos: u64)
        ensures
            final(self).spec_sample_rate() == old(self).spec_sample_rate(),
            final(self).queue_capacity() == old(self).queue_capacity(),
            final(self).unit() == after_frames(
                old(self).unit(),
                old(self).pending(),
                frames_in(old(self).spec_sample_rate() as nat, dt_nanos as nat),
                true,
            ),
            final(self).pending() == pending_after(
                old(self).pending(),
                frames_in(old(self).spec_sample_rate() as nat, dt_nanos as nat),
            ),
    {
        let n = frame_count(self.0.sample_rate, dt_nanos);
        self.0.discard(n, true);
    }
}

} // verus!
