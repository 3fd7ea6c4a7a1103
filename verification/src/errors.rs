use vstd::prelude::*;

verus! {

/// Failure of a convolution engine's (re)initialization.
///
/// This error is fatal for a buffer-size change: the stream cannot safely
/// continue with a failed engine, so the handler asks the host to stop.
#[derive(Clone, Copy, PartialEq, Eq, Structural, Debug)]
pub enum InitError {
    /// The host asked for a block size of zero.
    ZeroBlockSize,
    /// The convolution backend could not allocate or prepare its
    /// internal partitions for the requested block size.
    BackendFailed,
}

/// Refusal of one block by a convolution engine.
///
/// This error is absorbed at block granularity on the real-time path:
/// the channel's block is dropped, the stream continues.
#[derive(Clone, Copy, PartialEq, Eq, Structural, Debug)]
pub enum ProcessError {
    /// The engine is uninitialized or failed and must not be invoked.
    EngineNotReady,
    /// The block handed in does not have the initialized block length.
    BlockLengthMismatch,
}

/// Rejection of the impulse response at startup.
#[derive(Clone, Copy, PartialEq, Eq, Structural, Debug)]
pub enum FormatError {
    /// The impulse response must hold exactly one channel of audio.
    WrongChannelCount,
    /// The impulse response's sample rate must equal the host's rate.
    SampleRateMismatch,
}

/// Rejection of the process invocation arguments.
#[derive(Clone, Copy, PartialEq, Eq, Structural, Debug)]
pub enum ConfigError {
    /// At least one channel pipeline must be requested.
    ZeroPorts,
}

} // verus!
