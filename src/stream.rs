//! Capabilities that platform backends provide: creating callback-driven
//! streams on a device, and stopping a stream to get its callback back.
use crate::config::StreamConfig;
use vstd::prelude::*;

verus! {

/// A running stream that can be stopped, returning the callback it ran.
pub trait AudioStreamHandle<Callback>: Sized {
    /// Error of stopping the stream.
    type Error;

    /// Whether `outcome` is a result that stopping this stream may give.
    spec fn ejects_as(&self, outcome: Result<Callback, Self::Error>) -> bool;

    /// Stops the stream and hands its callback back.
    fn eject(self) -> (r: Result<Callback, Self::Error>)
        ensures
            self.ejects_as(r),
    ;
}

/// A device that can run a callback on captured audio.
pub trait AudioInputDevice<Callback> {
    /// Error of opening a stream.
    type Error;

    /// Handle of an opened input stream.
    type StreamHandle: AudioStreamHandle<Callback>;

    /// Whether `outcome` is a result that opening a stream with `config`
    /// running `callback` may give.
    spec fn opens_as(
        &self,
        config: StreamConfig,
        callback: Callback,
        outcome: Result<Self::StreamHandle, Self::Error>,
    ) -> bool;

    /// Opens an input stream with the given configuration, running `callback`
    /// each time the hardware delivers a buffer.
    fn create_input_stream(&self, config: StreamConfig, callback: Callback) -> (r: Result<
        Self::StreamHandle,
        Self::Error,
    >)
        ensures
            self.opens_as(config, callback, r),
    ;
}

/// A device that can run a callback to produce audio for playback.
pub trait AudioOutputDevice<Callback> {
    /// Error of opening a stream.
    type Error;

    /// Handle of an opened output stream.
    type StreamHandle: AudioStreamHandle<Callback>;

    /// Whether `outcome` is a result that opening a stream with `config`
    /// running `callback` may give.
    spec fn opens_as(
        &self,
        config: StreamConfig,
        callback: Callback,
        outcome: Result<Self::StreamHandle, Self::Error>,
    ) -> bool;

    /// Opens an output stream with the given configuration, running
    /// `callback` each time the hardware asks for a buffer.
    fn create_output_stream(&self, config: StreamConfig, callback: Callback) -> (r: Result<
        Self::StreamHandle,
        Self::Error,
    >)
        ensures
            self.opens_as(config, callback, r),
    ;
}

} // verus!
