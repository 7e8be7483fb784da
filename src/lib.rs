//! A signal-processing graph registry with offline rendering and real-time
//! streaming of graph instances.
//!
//! Graph instances are pulled one frame at a time; named parameter updates
//! are queued and applied in arrival order right before the next frame.
//! Time is measured in whole nanoseconds and sample rates in whole hertz, so
//! that every frame count below is exact integer arithmetic.

pub mod backend;
pub mod graph;
pub mod identity;
pub mod manager;
pub mod parameter;
pub mod source;
pub mod stream;
pub mod timing;

pub use backend::{BevyAudioBackend, KiraBackend, OddioBackend};
pub use graph::{DspGraph, GraphInstance};
pub use identity::graph_identity;
pub use manager::DspManager;
pub use parameter::{ChannelSaturated, ParameterQueue, PARAMETER_QUEUE_CAPACITY};
pub use source::{Descriptor, DspError, DspSource, SourceType};
pub use stream::{Iter, IterMono};
pub use timing::{frame_count, NANOS_PER_SECOND};
