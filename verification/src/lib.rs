//! Short-time spectral analysis of a live stereo stream, and the display of
//! its frames.
//!
//! [`audio`] holds the path from captured samples to analysis frames: the
//! sliding-window accumulator, the queue of frames, the state of the capture
//! stream, and the watch on the default audio device. [`render`] plans what
//! is drawn of a frame, step by step, for a graphics driver to carry out.
//! [`util`] holds the integer geometry that both share.
//!
//! Nothing here touches a device, a clock or a driver: values read from them
//! come in as arguments, and what is to be done with them goes out as
//! results.

pub mod audio;
pub mod render;
pub mod util;
