//! From captured samples to analysis frames.

pub mod analyzer;
pub mod device;
pub mod queue;
pub mod streamer;

pub use analyzer::{
    AnalysisJob, AudioDataChunk, ChannelSpectrum, ChannelWindows, ChunkView, StreamData, FFT_SIZE,
    FFT_STRIDE, HALF_FFT_SIZE,
};
pub use device::DeviceSelector;
pub use queue::FrameQueue;
pub use streamer::{ConfigError, StreamConfig, StreamError, Streamer};
