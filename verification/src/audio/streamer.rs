//! The state of the capture stream across devices.

use super::analyzer::{ChunkView, StreamData};
use vstd::prelude::*;

verus! {

/// Number of channels a capture stream must deliver.
pub const STEREO: u16 = 2;

/// What is read of the stream configuration that a device offers by default.
#[derive(Clone, Copy, Debug, PartialEq, Eq, Structural)]
pub struct StreamConfig {
    /// Number of interleaved channels in every buffer the stream delivers.
    pub channels: u16,
}

/// Why a capture stream cannot be started.
#[derive(Clone, Copy, Debug, PartialEq, Eq, Structural)]
pub enum ConfigError {
    /// There is no default device.
    NoDevice,
    /// The device offers no stream configuration.
    NoConfig,
    /// The device's stream is not stereo; the payload is its channel count.
    ChannelCount(u16),
}

/// An error that a running stream reports.
#[derive(Clone, Copy, Debug, PartialEq, Eq, Structural)]
pub enum StreamError {
    /// The device the stream was bound to is gone.
    DeviceNotAvailable,
    /// Anything else the backend may report.
    BackendSpecific,
}

/// Whether a stream can be started on what resolving the default device came
/// to: a device, a configuration and exactly two channels are all needed,
/// and the first of them that is lacking is the error.
pub open spec fn start_outcome(device_found: bool, config: Option<StreamConfig>) -> Result<
    (),
    ConfigError,
> {
    if !device_found {
        Err(ConfigError::NoDevice)
    } else {
        match config {
            None => Err(ConfigError::NoConfig),
            Some(config) => if config.channels == STEREO {
                Ok(())
            } else {
                Err(ConfigError::ChannelCount(config.channels))
            },
        }
    }
}

/// Decides whether a stream can be started on what resolving the default
/// device came to.
pub fn check_start(device_found: bool, config: Option<StreamConfig>) -> (outcome: Result<
    (),
    ConfigError,
>)
    ensures
        outcome == start_outcome(device_found, config),
{
    if !device_found {
        return Err(ConfigError::NoDevice);
    }
    match config {
        None => Err(ConfigError::NoConfig),
        Some(config) => if config.channels == STEREO {
            Ok(())
        } else {
            Err(ConfigError::ChannelCount(config.channels))
        },
    }
}

/// The state of a capture stream that outlives any one device: the record of
/// whether the device was lost, and the analyser that the stream feeds.
///
/// The stream itself belongs to the owner of this state, who starts it
/// where [`Streamer::begin`] or [`Streamer::update_stream`] succeed, passes
/// every buffer it delivers to [`StreamData::append`] on the analyser, and
/// every error to [`Streamer::err_fn`].
pub struct Streamer<S, C> {
    lost_device: bool,
    data: StreamData<S, C>,
}

impl<S, C> Streamer<S, C> {
    /// Whether the stream has reported that its device is gone, and no
    /// stream has been started since.
    pub closed spec fn lost_device(&self) -> bool {
        self.lost_device
    }

    /// The analyser that the stream feeds.
    pub closed spec fn data(&self) -> StreamData<S, C> {
        self.data
    }

    /// The state of a first stream: nothing buffered, nothing queued, no
    /// device lost. Fails, with nothing made, where no stream can be started.
    pub fn begin(device_found: bool, config: Option<StreamConfig>) -> (started: Result<
        Self,
        ConfigError,
    >)
        ensures
            match started {
                Ok(streamer) => {
                    &&& start_outcome(device_found, config) is Ok
                    &&& !streamer.lost_device()
                    &&& streamer.data().wf()
                    &&& streamer.data().buffer(0) == Seq::<S>::empty()
                    &&& streamer.data().buffer(1) == Seq::<S>::empty()
                    &&& streamer.data().frames() == Seq::<ChunkView<S, C>>::empty()
                },
                Err(error) => start_outcome(device_found, config) == Err::<(), ConfigError>(error),
            },
    {
        match check_start(device_found, config) {
            Ok(()) => Ok(Streamer { lost_device: false, data: StreamData::new() }),
            Err(error) => Err(error),
        }
    }

    /// Moves on to a new stream on a device that was resolved again. Where
    /// one can be started the loss of the former device is forgotten; where
    /// not, nothing changes. What is buffered and queued stays either way.
    pub fn update_stream(&mut self, device_found: bool, config: Option<StreamConfig>) -> (started:
        Result<(), ConfigError>)
        ensures
            started == start_outcome(device_found, config),
            final(self).data() == old(self).data(),
            final(self).lost_device() == (started is Err && old(self).lost_device()),
    {
        let started = check_start(device_found, config);
        if started.is_ok() {
            self.lost_device = false;
        }
        started
    }

    /// Takes note of an error that the stream reports: the device counts as
    /// lost from the moment the stream says that it is unavailable. No other
    /// error changes anything.
    pub fn err_fn(&mut self, err: StreamError)
        ensures
            final(self).lost_device() == (old(self).lost_device() || err
                == StreamError::DeviceNotAvailable),
            final(self).data() == old(self).data(),
    {
        if let StreamError::DeviceNotAvailable = err {
            self.lost_device = true;
        }
    }

    /// The analyser that the stream feeds, to append to and to take frames
    /// from.
    pub fn data_mut(&mut self) -> (data: &mut StreamData<S, C>)
        ensures
            *data == old(self).data(),
            final(self).data() == *final(data),
            final(self).lost_device() == old(self).lost_device(),
    {
        &mut self.data
    }

    /// Whether the device was lost. Reading the record does not clear it.
    pub fn did_lose_device(&self) -> (lost: bool)
        ensures
            lost == self.lost_device(),
    {
        self.lost_device
    }
}

} // verus!
