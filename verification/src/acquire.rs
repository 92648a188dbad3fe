//! The frame-acquisition retry policy.
//!
//! The desktop duplication service hands out a new frame only when the
//! screen changes, so a short wait routinely times out; that is expected
//! steady-state behaviour, never an error. Losing access to the
//! duplication interface invalidates the handle permanently and forces a
//! full re-initialisation, which is bounded to avoid retrying forever
//! under pathological repeated loss. The platform shell performs the
//! waits and the re-initialisation; this machine only classifies each
//! outcome and keeps the counters.

use vstd::prelude::*;

verus! {

/// How many full re-initialisations of the duplication interface an
/// acquisition may spend before giving up.
pub const MAX_REINITS: u32 = 8;

/// The outcome of one attempt to pull the next frame, as reported by the
/// duplication service.
#[derive(Clone, Copy, Debug, PartialEq, Eq)]
pub enum AcquireEvent {
    /// A frame arrived, with the timestamp of its last presentation.
    /// A zero timestamp means the frame carries no new screen content.
    Frame { present_time: u64 },
    /// The bounded wait elapsed without a new frame.
    Timeout,
    /// The duplication interface became permanently invalid.
    AccessLost,
    /// Any other transient failure.
    Failure,
}

/// What the shell must do next with the duplication service.
#[derive(Clone, Copy, Debug, PartialEq, Eq)]
pub enum AcquireCommand {
    /// Release the held frame and wait for the next one.
    AwaitNext,
    /// Tear the duplication interface down and establish it anew, then
    /// wait for the next frame.
    Reinitialise,
    /// Keep the frame just delivered; acquisition is complete.
    Accept,
    /// Too many re-initialisations: give the acquisition up as failed.
    Abort,
}

/// The counters of one acquisition: timeouts seen (diagnostic only, kept
/// saturating) and full re-initialisations spent (bounded).
#[derive(Clone, Copy, Debug, PartialEq, Eq, Structural)]
pub struct Acquisition {
    pub timeouts: u32,
    pub reinits: u32,
}

/// The single transition function of the acquisition machine.
pub open spec fn acquire_step(pre: Acquisition, ev: AcquireEvent) -> (Acquisition, AcquireCommand) {
    match ev {
        AcquireEvent::Frame { present_time } => if present_time > 0 {
            (pre, AcquireCommand::Accept)
        } else {
            (pre, AcquireCommand::AwaitNext)
        },
        AcquireEvent::Timeout => (
            Acquisition {
                timeouts: if pre.timeouts < u32::MAX {
                    (pre.timeouts + 1) as u32
                } else {
                    u32::MAX
                },
                reinits: pre.reinits,
            },
            AcquireCommand::AwaitNext,
        ),
        AcquireEvent::AccessLost => if pre.reinits < MAX_REINITS {
            (
                Acquisition { timeouts: pre.timeouts, reinits: (pre.reinits + 1) as u32 },
                AcquireCommand::Reinitialise,
            )
        } else {
            (pre, AcquireCommand::Abort)
        },
        AcquireEvent::Failure => (pre, AcquireCommand::AwaitNext),
    }
}

impl Acquisition {
    /// The bounded-retry budget is never overdrawn.
    pub open spec fn wf(&self) -> bool {
        self.reinits <= MAX_REINITS
    }

    /// A fresh acquisition with both counters at zero.
    pub fn new() -> (r: Acquisition)
        ensures
            r.timeouts == 0,
            r.reinits == 0,
            r.wf(),
    {
        Acquisition { timeouts: 0, reinits: 0 }
    }

    /// Classify one attempt's outcome: accept a frame that carries a
    /// presentation timestamp, wait again after a timeout (counting it)
    /// or a transient failure, and spend one bounded re-initialisation
    /// on a lost interface.
    pub fn step(&mut self, ev: AcquireEvent) -> (c: AcquireCommand)
        requires
            old(self).wf(),
        ensures
            (*final(self), c) == acquire_step(*old(self), ev),
            final(self).wf(),
    {
        match ev {
            AcquireEvent::Frame { present_time } => {
                if present_time > 0 {
                    AcquireCommand::Accept
                } else {
                    AcquireCommand::AwaitNext
                }
            },
            AcquireEvent::Timeout => {
                if self.timeouts < u32::MAX {
                    self.timeouts = self.timeouts + 1;
                }
                AcquireCommand::AwaitNext
            },
            AcquireEvent::AccessLost => {
                if self.reinits < MAX_REINITS {
                    self.reinits = self.reinits + 1;
                    AcquireCommand::Reinitialise
                } else {
                    AcquireCommand::Abort
                }
            },
            AcquireEvent::Failure => AcquireCommand::AwaitNext,
        }
    }
}

/// Only a frame with a non-zero presentation timestamp is ever accepted,
/// and no step both accepts and changes the counters.
pub proof fn lemma_accept_only_on_presented_frame(pre: Acquisition, ev: AcquireEvent)
    ensures
        acquire_step(pre, ev).1 == AcquireCommand::Accept <==> (ev matches AcquireEvent::Frame {
            present_time,
        } && present_time > 0),
        acquire_step(pre, ev).1 == AcquireCommand::Accept ==> acquire_step(pre, ev).0 == pre,
{
}

} // verus!
