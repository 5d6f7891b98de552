//! Graceful-then-forced termination of one process.
//!
//! The host sends a termination signal and reports whether sending it
//! worked; from then on it follows the returned actions: wait the given
//! time and report whether the process is still alive, or kill it outright.
use vstd::prelude::*;

verus! {

/// How long a process is given to exit after the termination signal.
pub const GRACE_PERIOD_MS: u64 = 500;

/// How long the host waits between two liveness probes.
pub const POLL_INTERVAL_MS: u64 = 50;

#[derive(Clone, Copy, PartialEq, Eq, Structural, Debug)]
pub enum Stage {
    /// No signal has been sent yet.
    Unsignalled,
    /// The termination signal was delivered; waiting for the process to exit.
    Signalled,
    /// The process was told to die at once; nothing is left to do.
    Killed,
    /// The process exited by itself.
    Exited,
}

/// What the host does next.
#[derive(Clone, Copy, PartialEq, Eq, Structural, Debug)]
pub enum TermAction {
    /// Wait this many milliseconds, then report whether the process lives.
    Wait { ms: u64 },
    /// Kill the process without further notice; the termination is over.
    ForceKill,
    /// The process is gone; the termination is over.
    Done,
}

/// Progress of the termination of one process.
#[derive(Clone, Copy, Debug)]
pub struct Termination {
    pub grace_ms: u64,
    pub poll_ms: u64,
    /// Time waited since the signal, over the waits already reported.
    pub waited_ms: u64,
    /// Length of the wait the host is performing now.
    pub pending_ms: u64,
    pub stage: Stage,
}

impl Termination {
    pub open spec fn wf(self) -> bool {
        &&& self.poll_ms > 0
        &&& self.waited_ms <= self.grace_ms
        &&& self.stage is Signalled ==> 0 < self.pending_ms && self.waited_ms + self.pending_ms <= self.grace_ms
    }

    /// The wait that follows once `waited` milliseconds have passed.
    pub open spec fn next_wait(self, waited: u64) -> u64 {
        if self.poll_ms <= self.grace_ms - waited {
            self.poll_ms
        } else {
            (self.grace_ms - waited) as u64
        }
    }

    /// The step taken when the host reports whether the signal was sent.
    pub open spec fn signal_step(self, sent: bool) -> (Termination, TermAction) {
        if sent && self.grace_ms > 0 {
            (
                Termination { stage: Stage::Signalled, waited_ms: 0, pending_ms: self.next_wait(0), ..self },
                TermAction::Wait { ms: self.next_wait(0) },
            )
        } else {
            (Termination { stage: Stage::Killed, ..self }, TermAction::ForceKill)
        }
    }

    /// The step taken when the host reports, after a wait, whether the
    /// process is still alive.
    pub open spec fn poll_step(self, alive: bool) -> (Termination, TermAction) {
        let waited = (self.waited_ms + self.pending_ms) as u64;
        if !alive {
            (Termination { stage: Stage::Exited, waited_ms: waited, pending_ms: 0, ..self }, TermAction::Done)
        } else if waited >= self.grace_ms {
            (Termination { stage: Stage::Killed, waited_ms: waited, pending_ms: 0, ..self }, TermAction::ForceKill)
        } else {
            (
                Termination { waited_ms: waited, pending_ms: self.next_wait(waited), ..self },
                TermAction::Wait { ms: self.next_wait(waited) },
            )
        }
    }

    /// A termination that gives the process `grace_ms` milliseconds to exit,
    /// probing it every `poll_ms` milliseconds.
    pub fn new(grace_ms: u64, poll_ms: u64) -> (r: Termination)
        requires
            poll_ms > 0,
        ensures
            r.wf(),
            r == (Termination { grace_ms, poll_ms, waited_ms: 0, pending_ms: 0, stage: Stage::Unsignalled }),
    {
        Termination { grace_ms, poll_ms, waited_ms: 0, pending_ms: 0, stage: Stage::Unsignalled }
    }

    fn next_wait_exec(&self, waited: u64) -> (r: u64)
        requires
            waited <= self.grace_ms,
        ensures
            r == self.next_wait(waited),
    {
        if self.poll_ms <= self.grace_ms - waited {
            self.poll_ms
        } else {
            self.grace_ms - waited
        }
    }

    /// Takes the report of whether the termination signal could be sent.
    /// A delivered signal is followed by a wait of at most the poll interval
    /// (a grace period of zero skips it); a signal that could not be sent is
    /// followed by a forced kill at once.
    pub fn on_signal(&mut self, sent: bool) -> (r: TermAction)
        requires
            old(self).wf(),
            old(self).stage is Unsignalled,
        ensures
            final(self).wf(),
            (*final(self), r) == old(self).signal_step(sent),
    {
        if sent && self.grace_ms > 0 {
            let w = self.next_wait_exec(0);
            self.stage = Stage::Signalled;
            self.waited_ms = 0;
            self.pending_ms = w;
            TermAction::Wait { ms: w }
        } else {
            self.stage = Stage::Killed;
            TermAction::ForceKill
        }
    }

    /// Takes the report, after the last wait, of whether the process is
    /// still alive. A process that exited ends the termination; one still
    /// alive once the grace period is used up is killed outright; otherwise
    /// the host waits again, never past the end of the grace period.
    pub fn on_poll(&mut self, alive: bool) -> (r: TermAction)
        requires
            old(self).wf(),
            old(self).stage is Signalled,
        ensures
            final(self).wf(),
            (*final(self), r) == old(self).poll_step(alive),
    {
        let waited = self.waited_ms + self.pending_ms;
        if !alive {
            self.stage = Stage::Exited;
            self.waited_ms = waited;
            self.pending_ms = 0;
            TermAction::Done
        } else if waited >= self.grace_ms {
            self.stage = Stage::Killed;
            self.waited_ms = waited;
            self.pending_ms = 0;
            TermAction::ForceKill
        } else {
            let w = self.next_wait_exec(waited);
            self.waited_ms = waited;
            self.pending_ms = w;
            TermAction::Wait { ms: w }
        }
    }
}

/// The action a signalled termination ends with when every probe finds the
/// process still alive.
pub open spec fn unresponsive_outcome(t: Termination) -> TermAction
    decreases t.grace_ms - t.waited_ms,
{
    if t.wf() && t.stage is Signalled {
        let (next, action) = t.poll_step(true);
        if action is Wait {
            unresponsive_outcome(next)
        } else {
            action
        }
    } else {
        TermAction::Done
    }
}

proof fn lemma_unresponsive_signalled(t: Termination)
    requires
        t.wf(),
        t.stage is Signalled,
    ensures
        unresponsive_outcome(t) == TermAction::ForceKill,
    decreases t.grace_ms - t.waited_ms,
{
    let (next, action) = t.poll_step(true);
    if action is Wait {
        lemma_unresponsive_signalled(next);
    }
}

/// Termination is graceful first, then forced: once the signal is delivered
/// the host is first told to wait (never to kill) when there is a grace
/// period, every wait is followed by a kill if the process stays alive
/// throughout, and a process found gone is never killed.
pub proof fn lemma_graceful_then_forced(grace_ms: u64, poll_ms: u64)
    requires
        poll_ms > 0,
    ensures
        ({
            let t = Termination { grace_ms, poll_ms, waited_ms: 0, pending_ms: 0, stage: Stage::Unsignalled };
            let (signalled, first) = t.signal_step(true);
            &&& grace_ms > 0 ==> first is Wait && unresponsive_outcome(signalled) == TermAction::ForceKill
            &&& grace_ms == 0 ==> first == TermAction::ForceKill
            &&& t.signal_step(false).1 == TermAction::ForceKill
        }),
        forall|s: Termination| s.wf() && s.stage is Signalled ==> (#[trigger] s.poll_step(false)).1 == TermAction::Done,
{
    let t = Termination { grace_ms, poll_ms, waited_ms: 0, pending_ms: 0, stage: Stage::Unsignalled };
    if grace_ms > 0 {
        let (signalled, first) = t.signal_step(true);
        lemma_unresponsive_signalled(signalled);
    }
}

} // verus!
