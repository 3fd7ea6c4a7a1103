use crate::errors::{InitError, ProcessError};
use vstd::prelude::*;

verus! {

/// The lifecycle state of one channel's convolution engine.
#[derive(Clone, Copy, PartialEq, Eq, Structural, Debug)]
pub enum EngineState {
    /// No block size negotiated yet; processing is refused.
    Uninitialized,
    /// Initialized for a positive block size; processing is allowed.
    Ready,
    /// The last initialization failed; processing is refused until a
    /// later initialization succeeds.
    Failed,
}

/// The fixed input-to-output delay, in samples, that the convolution
/// algorithm adds beyond the unavoidable one-block pipeline delay. The
/// uniformly partitioned frequency-domain backend buffers no look-ahead:
/// each block's output is the convolved input up to that same block, so
/// the added latency is zero.
pub const ADDED_LATENCY_SAMPLES: usize = 0;

/// Control state of one channel's streaming convolution engine.
///
/// The engine tracks its lifecycle (`Uninitialized -> Ready -> Failed`)
/// and the block size it was initialized for. The numeric convolution
/// work runs in floating point and is delegated to an outside backend on
/// the real-time thread; this type decides, and its contracts pin down,
/// when a block may be processed and how reinitialization behaves.
#[derive(Clone, Copy, PartialEq, Eq, Structural, Debug)]
pub struct Engine {
    lifecycle: EngineState,
    block: usize,
}

impl Engine {
    /// The lifecycle state.
    pub closed spec fn state(self) -> EngineState {
        self.lifecycle
    }

    /// The block size of the last successful initialization.
    pub closed spec fn block_size(self) -> usize {
        self.block
    }

    /// A well-formed engine is `Ready` only for a positive block size.
    pub open spec fn wf(self) -> bool {
        self.state() is Ready ==> self.block_size() > 0
    }

    /// The engine accepts a block exactly when it is `Ready` and both
    /// the input and the output slice have the initialized block length.
    pub open spec fn can_process(self, input_len: usize, output_len: usize) -> bool {
        &&& self.state() is Ready
        &&& input_len == self.block_size()
        &&& output_len == self.block_size()
    }

    /// A fresh engine: uninitialized, refusing every block.
    pub fn new() -> (e: Engine)
        ensures
            e.state() is Uninitialized,
            e.block_size() == 0,
            e.wf(),
    {
        Engine { lifecycle: EngineState::Uninitialized, block: 0 }
    }

    /// (Re)initialize the engine for `block_size`, fully discarding any
    /// prior state.
    ///
    /// `backend_ready` reports whether the caller's convolution backend
    /// could allocate and prepare its partitions for this block size;
    /// that outcome depends on the allocator and is handed in rather
    /// than computed here. A zero block size is refused outright,
    /// whatever the backend reported. On any failure the engine is
    /// `Failed` and refuses processing until reinitialized.
    pub fn initialize(&mut self, block_size: usize, backend_ready: bool) -> (r: Result<
        (),
        InitError,
    >)
        ensures
            final(self).wf(),
            r is Ok <==> block_size > 0 && backend_ready,
            r is Ok ==> r == Ok::<(), InitError>(()),
            r is Ok ==> final(self).state() is Ready && final(self).block_size() == block_size,
            r is Err ==> final(self).state() is Failed,
            block_size == 0 ==> r == Err::<(), InitError>(InitError::ZeroBlockSize),
            block_size > 0 && !backend_ready ==> r == Err::<(), InitError>(
                InitError::BackendFailed,
            ),
    {
        if block_size == 0 {
            self.lifecycle = EngineState::Failed;
            Err(InitError::ZeroBlockSize)
        } else if !backend_ready {
            self.lifecycle = EngineState::Failed;
            Err(InitError::BackendFailed)
        } else {
            self.lifecycle = EngineState::Ready;
            self.block = block_size;
            Ok(())
        }
    }

    /// The current lifecycle state, for observers off the real-time path.
    pub fn status(&self) -> (s: EngineState)
        ensures
            s == self.state(),
    {
        self.lifecycle
    }

    /// The block size the engine currently accepts, for observers.
    pub fn current_block_size(&self) -> (n: usize)
        ensures
            n == self.block_size(),
    {
        self.block
    }

    /// Decide whether one block may be processed now.
    ///
    /// `Ok` exactly when the engine is `Ready` and both lengths equal
    /// the initialized block size; the error names the reason for the
    /// refusal. The engine itself is unchanged: a refused block is
    /// absorbed, never fatal for the stream.
    pub fn check_process(&self, input_len: usize, output_len: usize) -> (r: Result<
        (),
        ProcessError,
    >)
        ensures
            r is Ok <==> self.can_process(input_len, output_len),
            r is Ok ==> r == Ok::<(), ProcessError>(()),
            !(self.state() is Ready) ==> r == Err::<(), ProcessError>(ProcessError::EngineNotReady),
            self.state() is Ready && !(input_len == self.block_size() && output_len
                == self.block_size()) ==> r == Err::<(), ProcessError>(
                ProcessError::BlockLengthMismatch,
            ),
    {
        if self.lifecycle != EngineState::Ready {
            Err(ProcessError::EngineNotReady)
        } else if input_len != self.block || output_len != self.block {
            Err(ProcessError::BlockLengthMismatch)
        } else {
            Ok(())
        }
    }
}

/// After a successful reinitialization for a new block size, the engine
/// accepts exactly blocks of the new size: a block of any other length,
/// in particular one of the old block size, is refused.
pub proof fn lemma_reinit_switches_block_size(e: Engine, old_size: usize, new_size: usize)
    requires
        e.state() is Ready,
        e.block_size() == new_size,
        old_size != new_size,
    ensures
        e.can_process(new_size, new_size),
        !e.can_process(old_size, old_size),
{
}

} // verus!
