use vstd::prelude::*;

verus! {

/// The shutdown coordinator's latch: a one-shot flag shared between the
/// host's notification context (writer) and the control thread (reader).
///
/// The flag only ever moves from unset to set and never back: signalling
/// is idempotent. The blocking itself (mutex, condition variable) is the
/// caller's; this type holds the protocol's state and its guarantees.
pub struct ShutdownFlag {
    fired: bool,
}

/// One step of the signalling protocol: however the coordinator started,
/// afterwards the flag is set, and a coordinator whose flag was already
/// set is left exactly as it was.
pub open spec fn signal_step(pre: ShutdownFlag, post: ShutdownFlag) -> bool {
    &&& post.is_fired()
    &&& pre.is_fired() ==> post == pre
}

impl ShutdownFlag {
    /// Whether the termination signal has been raised.
    pub closed spec fn is_fired(self) -> bool {
        self.fired
    }

    /// A fresh coordinator: still running, no signal raised.
    pub fn new() -> (s: ShutdownFlag)
        ensures
            !s.is_fired(),
    {
        ShutdownFlag { fired: false }
    }

    /// Raise the termination signal. One-shot: once set the flag stays
    /// set, and raising it again changes nothing.
    pub fn signal(&mut self)
        ensures
            signal_step(*old(self), *final(self)),
            final(self).is_fired(),
    {
        self.fired = true;
    }

    /// The control thread's wait condition, re-checked after every wakeup:
    /// keep waiting exactly while no signal has been raised. Once the
    /// flag is set this returns `false` forever, so a waiter that
    /// re-checks never blocks again.
    pub fn keep_waiting(&self) -> (w: bool)
        ensures
            w == !self.is_fired(),
    {
        !self.fired
    }
}

/// The latch is one-shot and idempotent: a second signal leaves the
/// coordinator exactly as the first left it, the flag stays set, and a
/// waiter that re-checks the flag after either signal does not block.
pub proof fn lemma_signal_idempotent(s0: ShutdownFlag, s1: ShutdownFlag, s2: ShutdownFlag)
    requires
        signal_step(s0, s1),
        signal_step(s1, s2),
    ensures
        s2 == s1,
        s1.is_fired(),
        s2.is_fired(),
{
}

} // verus!
