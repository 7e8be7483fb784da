use bevy_fundsp::{
    frame_count, graph_identity, BevyAudioBackend, ChannelSaturated, DspGraph, DspManager, DspSource,
    GraphInstance, KiraBackend, OddioBackend, ParameterQueue, SourceType, PARAMETER_QUEUE_CAPACITY,
};

/// A graph whose frame is the number of ticks so far and the value of its
/// one parameter.
#[derive(Clone)]
struct Counter {
    ticks: u64,
    level: i64,
}

impl GraphInstance for Counter {
    type Value = i64;
    type Frame = (u64, i64);
    type Mono = u64;

    fn with_parameter(&self, _tag: u64, value: i64) -> Counter {
        Counter { ticks: self.ticks, level: value }
    }

    fn stereo_out(&self) -> (u64, i64) {
        (self.ticks + 1, self.level)
    }

    fn after_stereo(&self) -> Counter {
        Counter { ticks: self.ticks + 1, level: self.level }
    }

    fn mono_out(&self) -> u64 {
        self.ticks + 1
    }

    fn after_mono(&self) -> Counter {
        Counter { ticks: self.ticks + 1, level: self.level }
    }

    fn set_parameter(&mut self, _tag: u64, value: i64) {
        self.level = value;
    }

    fn get_stereo(&mut self) -> (u64, i64) {
        self.ticks += 1;
        (self.ticks, self.level)
    }

    fn get_mono(&mut self) -> u64 {
        self.ticks += 1;
        self.ticks
    }
}

struct CounterGraph(u128);

impl DspGraph for CounterGraph {
    type Unit = Counter;

    fn spec_id(&self) -> u128 {
        self.0
    }

    fn instance(&self) -> Counter {
        Counter { ticks: 0, level: 0 }
    }

    fn id(&self) -> u128 {
        self.0
    }

    fn generate_graph(&self) -> Counter {
        Counter { ticks: 0, level: 0 }
    }
}

#[test]
fn frame_count_rounds_to_nearest() {
    assert_eq!(frame_count(44100, 1_000_000_000), 44100);
    assert_eq!(frame_count(44100, 500_000_000), 22050);
    assert_eq!(frame_count(48000, 0), 0);
    assert_eq!(frame_count(0, 1_000_000_000), 0);
    assert_eq!(frame_count(1, 499_999_999), 0);
    assert_eq!(frame_count(1, 500_000_000), 1);
    assert_eq!(frame_count(1, 1_499_999_999), 1);
}

#[test]
fn frame_count_largest_inputs() {
    let expected = (u32::MAX as u128 * u64::MAX as u128 + 500_000_000) / 1_000_000_000;
    assert_eq!(frame_count(u32::MAX, u64::MAX), expected);
}

#[test]
fn queue_is_fifo_and_bounded() {
    let mut q: ParameterQueue<i64> = ParameterQueue::new(2);
    assert_eq!(q.capacity(), 2);
    assert_eq!(q.try_push(1, 10), Ok(()));
    assert_eq!(q.try_push(2, 20), Ok(()));
    assert_eq!(q.try_push(3, 30), Err(ChannelSaturated::Full));
    assert_eq!(q.len(), 2);
    assert_eq!(q.pop(), Some((1, 10)));
    assert_eq!(q.try_push(3, 30), Ok(()));
    assert_eq!(q.pop(), Some((2, 20)));
    assert_eq!(q.pop(), Some((3, 30)));
    assert_eq!(q.pop(), None);
}

#[test]
fn stream_saturates_at_queue_capacity() {
    let mut iter = DspSource::new(CounterGraph(1), 100, SourceType::Dynamic).into_iter();
    for i in 0..PARAMETER_QUEUE_CAPACITY {
        assert_eq!(iter.set(0, i as i64), Ok(()));
    }
    assert_eq!(iter.set(0, -1), Err(ChannelSaturated::Full));
    // Every queued update is applied, in order, before the next frame.
    assert_eq!(iter.next_frame(), (1, PARAMETER_QUEUE_CAPACITY as i64 - 1));
    assert_eq!(iter.set(0, 7), Ok(()));
    assert_eq!(iter.next_frame(), (2, 7));
}

#[test]
fn advance_discards_rounded_frame_count() {
    let mut iter = DspSource::new(CounterGraph(1), 1000, SourceType::Dynamic).into_iter();
    // 2.5 ms at 1000 Hz rounds to 3 frames.
    iter.advance(2_500_000);
    assert_eq!(iter.next_frame(), (4, 0));
    // 0.4 ms rounds to 0 frames.
    iter.advance(400_000);
    assert_eq!(iter.next_frame(), (5, 0));
}

#[test]
fn advance_applies_pending_updates() {
    let mut iter = DspSource::new(CounterGraph(1), 1000, SourceType::Dynamic).into_iter();
    assert_eq!(iter.set(0, 9), Ok(()));
    iter.advance(1_000_000);
    assert_eq!(iter.next_frame(), (2, 9));
}

#[test]
fn mono_stream_uses_mono_accessor() {
    let mut iter = DspSource::new(CounterGraph(1), 1000, SourceType::Dynamic).into_iter().into_mono();
    assert_eq!(iter.sample_rate(), 1000);
    assert_eq!(iter.next(), Some(1));
    iter.advance(2_000_000);
    assert_eq!(iter.next_frame(), 4);
}

#[test]
fn lookup_unregistered_is_none() {
    let manager: DspManager<CounterGraph> = DspManager::new(44100);
    assert!(manager.get_graph_by_id(&5).is_none());
    assert!(manager.get_graph(CounterGraph(5)).is_none());
}

#[test]
fn lookup_after_register_matches() {
    let mut manager = DspManager::new(48000);
    assert_eq!(manager.sample_rate(), 48000);
    let id = manager.add_graph(CounterGraph(7), SourceType::Static { duration_nanos: 2_000_000_000 });
    assert_eq!(id, 7);
    let found = manager.get_graph(CounterGraph(7)).unwrap();
    assert_eq!(found.sample_rate(), 48000);
    assert_eq!(found.source_type(), SourceType::Static { duration_nanos: 2_000_000_000 });
    manager.register(9, CounterGraph(9), 22050, SourceType::Dynamic);
    let other = manager.get_graph_by_id(&9).unwrap();
    assert_eq!(other.sample_rate(), 22050);
    assert_eq!(other.source_type(), SourceType::Dynamic);
    assert!(manager.get_graph_by_id(&8).is_none());
}

#[test]
fn register_replaces_earlier_entry() {
    let mut manager = DspManager::new(48000);
    manager.add_graph(CounterGraph(7), SourceType::Dynamic);
    manager.register(7, CounterGraph(7), 8000, SourceType::Static { duration_nanos: 1 });
    let found = manager.get_graph_by_id(&7).unwrap();
    assert_eq!(found.sample_rate(), 8000);
    assert_eq!(found.source_type(), SourceType::Static { duration_nanos: 1 });
}

#[test]
fn identity_is_name_based_uuid() {
    assert_eq!(graph_identity("sine"), 101165122407654080401248113942773416523);
    assert_eq!(graph_identity("noise"), 115339442256882171509278561101499812448);
    assert_eq!(graph_identity(""), 13837052152308061008803972860701355855);
    assert_eq!(graph_identity("sine"), graph_identity("sine"));
    assert_ne!(graph_identity("sine"), graph_identity("noise"));
}

#[test]
fn shared_descriptor_builds_independent_instances() {
    let source = DspSource::new(CounterGraph(1), 1000, SourceType::Dynamic);
    let mut a = source.share().into_iter();
    let mut b = source.clone().into_iter();
    assert_eq!(a.next_frame(), (1, 0));
    assert_eq!(a.next_frame(), (2, 0));
    assert_eq!(b.next_frame(), (1, 0));
}

#[test]
fn bevy_audio_decoder_is_fresh_mono_stream() {
    let source = DspSource::new(CounterGraph(1), 22050, SourceType::Dynamic);
    let mut decoder = BevyAudioBackend::decoder(&source);
    assert_eq!(decoder.sample_rate(), 22050);
    assert_eq!(decoder.next(), Some(1));
    assert_eq!(BevyAudioBackend::channels(), 1);
    assert!(BevyAudioBackend::convert_to_audio_source(&source).is_err());
}

#[test]
fn kira_process_advances_then_samples() {
    let mut iter = DspSource::new(CounterGraph(1), 1000, SourceType::Dynamic).into_iter();
    assert_eq!(KiraBackend::process(&mut iter, 3_000_000), (4, 0));
    assert!(!KiraBackend::finished(&iter));
}

#[test]
fn oddio_sample_fills_buffer_after_interval() {
    let mut iter = DspSource::new(CounterGraph(1), 1000, SourceType::Dynamic).into_iter();
    let out = OddioBackend::sample(&mut iter, 2_000_000, 3);
    assert_eq!(out, vec![(3, 0), (4, 0), (5, 0)]);
}

#[test]
fn oddio_static_source_has_exact_length() {
    let source = DspSource::new(CounterGraph(1), 8000, SourceType::Static { duration_nanos: 250_000_000 });
    let frames = OddioBackend::convert_to_audio_source(&source).unwrap();
    assert_eq!(frames.len(), 2000);
    assert_eq!(frames[0], (1, 0));
    assert_eq!(frames[1999], (2000, 0));
    let bevy_frames = BevyAudioBackend::convert_to_audio_source(&source).unwrap();
    assert_eq!(bevy_frames.len(), 2000);
}

#[test]
fn oddio_mono_sample_fills_buffer_after_interval() {
    let mut iter = DspSource::new(CounterGraph(1), 1000, SourceType::Dynamic).into_iter().into_mono();
    assert_eq!(iter.set(0, 5), Ok(()));
    let out = OddioBackend::sample_mono(&mut iter, 1_000_000, 2);
    assert_eq!(out, vec![2, 3]);
    assert_eq!(iter.next_frame(), 4);
}

#[test]
fn render_yields_successive_frames_of_one_instance() {
    let source = DspSource::new(CounterGraph(1), 1000, SourceType::Static { duration_nanos: 4_000_000 });
    assert_eq!(source.render_frames().unwrap(), vec![(1, 0), (2, 0), (3, 0), (4, 0)]);
    assert_eq!(source.dsp_graph().0, 1);
}

#[test]
fn process_returns_frame_after_skipped_ones() {
    let mut iter = DspSource::new(CounterGraph(1), 1000, SourceType::Dynamic).into_iter();
    assert_eq!(iter.set(0, 3), Ok(()));
    assert_eq!(iter.process(2_000_000), (3, 3));
    assert_eq!(iter.process(0), (4, 3));
}
