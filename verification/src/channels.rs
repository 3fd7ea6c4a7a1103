use crate::engine::{Engine, EngineState};
use crate::errors::ProcessError;
use vstd::prelude::*;

verus! {

/// What a real-time callback tells the audio host when it returns.
#[derive(Clone, Copy, PartialEq, Eq, Structural, Debug)]
pub enum Control {
    /// Keep the stream running.
    Continue,
    /// Terminate the stream cleanly.
    Quit,
}

/// The scheduler's verdict for one channel and one block: whether that
/// channel's engine may convolve the block, and if not, why.
pub open spec fn process_verdict(e: Engine, input_len: usize, output_len: usize) -> Result<
    (),
    ProcessError,
> {
    if !(e.state() is Ready) {
        Err(ProcessError::EngineNotReady)
    } else if input_len != e.block_size() || output_len != e.block_size() {
        Err(ProcessError::BlockLengthMismatch)
    } else {
        Ok(())
    }
}

/// The verdicts of a whole bank of engines for one block, channel by
/// channel in ascending order.
pub open spec fn bank_verdicts(engines: Seq<Engine>, input_len: usize, output_len: usize) -> Seq<
    Result<(), ProcessError>,
> {
    Seq::new(engines.len(), |i: int| process_verdict(engines[i], input_len, output_len))
}

/// One convolution engine per registered channel, in channel order: the
/// per-channel state that the process scheduler and the buffer-size
/// change handler drive on the real-time thread.
pub struct ChannelBank {
    engines: Vec<Engine>,
}

impl View for ChannelBank {
    type V = Seq<Engine>;

    closed spec fn view(&self) -> Seq<Engine> {
        self.engines@
    }
}

impl ChannelBank {
    /// Every engine in the bank is well formed.
    pub open spec fn wf(self) -> bool {
        forall|i: int| 0 <= i < self@.len() ==> (#[trigger] self@[i]).wf()
    }

    /// One fresh, uninitialized engine per requested channel.
    pub fn new(ports: usize) -> (b: ChannelBank)
        ensures
            b@.len() == ports,
            forall|i: int| 0 <= i < ports ==> (#[trigger] b@[i]).state() is Uninitialized,
            b.wf(),
    {
        let mut engines: Vec<Engine> = Vec::new();
        let mut k: usize = 0;
        while k < ports
            invariant
                k <= ports,
                engines@.len() == k,
                forall|i: int| 0 <= i < k ==> (#[trigger] engines@[i]).state() is Uninitialized,
                forall|i: int| 0 <= i < k ==> (#[trigger] engines@[i]).wf(),
            decreases ports - k,
        {
            engines.push(Engine::new());
            k += 1;
        }
        ChannelBank { engines }
    }

    /// How many channels the bank drives.
    pub fn len(&self) -> (n: usize)
        ensures
            n == self@.len(),
    {
        self.engines.len()
    }

    /// The engine of one channel (zero-based index), as a copy.
    pub fn engine_at(&self, i: usize) -> (e: Engine)
        requires
            i < self@.len(),
        ensures
            e == self@[i as int],
    {
        self.engines[i]
    }

    /// The process scheduler's decision for one audio block: one verdict
    /// per channel, in ascending channel order. A refused channel is
    /// absorbed — its verdict carries the error — and the callback tells
    /// the host to continue whatever the verdicts were: a per-channel
    /// failure is terminal for that block only, never for the stream.
    pub fn process_block(&self, input_len: usize, output_len: usize) -> (r: (
        Vec<Result<(), ProcessError>>,
        Control,
    ))
        ensures
            r.0@ == bank_verdicts(self@, input_len, output_len),
            r.1 is Continue,
    {
        let mut verdicts: Vec<Result<(), ProcessError>> = Vec::new();
        let mut k: usize = 0;
        while k < self.engines.len()
            invariant
                k <= self.engines.len(),
                verdicts@.len() == k,
                forall|i: int| 0 <= i < k ==> verdicts@[i] == process_verdict(
                    #[trigger] self.engines@[i],
                    input_len,
                    output_len,
                ),
            decreases self.engines.len() - k,
        {
            let v = self.engines[k].check_process(input_len, output_len);
            verdicts.push(v);
            k += 1;
        }
        proof {
            assert(verdicts@ =~= bank_verdicts(self@, input_len, output_len));
        }
        (verdicts, Control::Continue)
    }

    /// The buffer-size change handler: reinitialize every engine for the
    /// host's new block size, in channel order. `backend_ready[i]` is the
    /// convolution backend's allocation outcome for channel `i`, handed
    /// in by the caller as each engine is reached. At the first failed
    /// initialization the handler stops and asks the host to terminate
    /// the stream — the stream cannot safely continue with a failed
    /// engine — leaving the failed engine `Failed`, every earlier engine
    /// ready at the new size, and every later engine untouched.
    pub fn buffer_size_changed(&mut self, new_block_size: usize, backend_ready: &Vec<bool>) -> (c:
        Control)
        requires
            backend_ready@.len() == old(self)@.len(),
            old(self).wf(),
        ensures
            final(self)@.len() == old(self)@.len(),
            final(self).wf(),
            c is Continue <==> (forall|i: int| #![auto]
                0 <= i < old(self)@.len() ==> backend_ready@[i] && new_block_size > 0),
            c is Continue ==> forall|i: int|
                0 <= i < old(self)@.len() ==> (#[trigger] final(self)@[i]).state() is Ready
                    && final(self)@[i].block_size() == new_block_size,
            c is Quit ==> exists|k: int|
                {
                    &&& 0 <= k < old(self)@.len()
                    &&& !(#[trigger] backend_ready@[k] && new_block_size > 0)
                    &&& final(self)@[k].state() is Failed
                    &&& forall|j: int|
                        0 <= j < k ==> (#[trigger] final(self)@[j]).state() is Ready
                            && final(self)@[j].block_size() == new_block_size
                    &&& forall|j: int|
                        k < j < old(self)@.len() ==> #[trigger] final(self)@[j] == old(self)@[j]
                },
    {
        let ghost orig: Seq<Engine> = self.engines@;
        let n: usize = self.engines.len();
        let mut k: usize = 0;
        while k < n
            invariant
                orig == old(self)@,
                n == self.engines@.len(),
                backend_ready@.len() == n,
                orig.len() == n,
                k <= n,
                forall|j: int| #![auto] 0 <= j < k ==> backend_ready@[j] && new_block_size > 0,
                forall|j: int|
                    0 <= j < k ==> (#[trigger] self.engines@[j]).state() is Ready
                        && self.engines@[j].block_size() == new_block_size,
                forall|j: int| k <= j < n ==> #[trigger] self.engines@[j] == orig[j],
                forall|j: int| 0 <= j < n ==> (#[trigger] self.engines@[j]).wf(),
            decreases n - k,
        {
            let mut e = self.engines[k];
            let outcome = backend_ready[k];
            let r = e.initialize(new_block_size, outcome);
            self.engines[k] = e;
            if let Err(_) = r {
                return Control::Quit;
            }
            k += 1;
        }
        Control::Continue
    }
}

/// Per-channel isolation: one channel's verdict for a block depends on
/// that channel's engine alone. If two banks differ at most in one
/// channel's engine, every other channel receives the same verdict in
/// both — a failure injected into one channel never alters what its
/// neighbours do with the same block.
pub proof fn lemma_channel_isolation(
    a: Seq<Engine>,
    b: Seq<Engine>,
    faulty: int,
    input_len: usize,
    output_len: usize,
)
    requires
        a.len() == b.len(),
        forall|i: int| 0 <= i < a.len() && i != faulty ==> a[i] == b[i],
    ensures
        forall|i: int|
            0 <= i < a.len() && i != faulty ==> bank_verdicts(a, input_len, output_len)[i]
                == bank_verdicts(b, input_len, output_len)[i],
{
}

} // verus!
