//! The shutdown sequence: signal, bounded wait for the janitor, forced
//! cancellation where the wait ran out, and the final clearing of the
//! reserve, in that order.
//!
//! Signalling, waiting and cancelling happen outside this library. The
//! caller reports how far the sequence has come, and `shutdown` answers
//! with the next thing to do.

use crate::janitor::JanitorState;
use crate::reserve::CacheReserve;
use std::hash::Hash;
use vstd::prelude::*;

verus! {

/// Seconds that a shutdown waits for the janitor to end by itself.
pub const JANITOR_GRACE_SECONDS: u64 = 5;

/// How far a shutdown has come.
#[derive(Clone, Copy, Debug, PartialEq, Eq, Structural)]
pub enum ShutdownProgress {
    /// Shutdown was asked for; nothing has been done yet.
    Requested,
    /// The shutdown signal was broadcast.
    Signalled,
    /// The janitor ended within the time it was given.
    JanitorJoined,
    /// The janitor did not end within the time it was given.
    JanitorTimedOut,
    /// The janitor was cancelled by force.
    JanitorAborted,
}

/// The next thing for a shutdown to do.
#[derive(Clone, Copy, Debug, PartialEq, Eq, Structural)]
pub enum ShutdownAction {
    /// Broadcast the shutdown signal, once. That nobody listens is no error.
    Signal,
    /// Wait for the janitor to end, for no longer than this many seconds.
    AwaitJanitor { seconds: u64 },
    /// Cancel the janitor by force.
    AbortJanitor,
    /// Nothing: the reserve has been cleared, and the shutdown is complete.
    Done,
}

/// The step that follows `progress` in a shutdown of a reserve whose janitor
/// is in state `janitor`. Only a running janitor is waited for, so a
/// shutdown of a reserve that was shut down before signals and is done.
pub open spec fn shutdown_action(janitor: JanitorState, progress: ShutdownProgress) -> ShutdownAction {
    match progress {
        ShutdownProgress::Requested => ShutdownAction::Signal,
        ShutdownProgress::Signalled => if janitor == JanitorState::Running {
            ShutdownAction::AwaitJanitor { seconds: JANITOR_GRACE_SECONDS }
        } else {
            ShutdownAction::Done
        },
        ShutdownProgress::JanitorJoined => ShutdownAction::Done,
        ShutdownProgress::JanitorTimedOut => ShutdownAction::AbortJanitor,
        ShutdownProgress::JanitorAborted => ShutdownAction::Done,
    }
}

/// The state of the janitor once a shutdown is complete: a janitor that was
/// running has stopped.
pub open spec fn janitor_after_shutdown(janitor: JanitorState) -> JanitorState {
    if janitor == JanitorState::Running {
        JanitorState::Stopped
    } else {
        janitor
    }
}

impl<PK, T> CacheReserve<PK, T> where PK: Eq + Hash + Copy {
    /// One step of the shutdown: the next thing to do after `progress`. With
    /// the step that completes the shutdown every entry is removed and a
    /// running janitor is recorded as stopped; no other step touches the
    /// reserve.
    pub fn shutdown(&mut self, progress: ShutdownProgress) -> (action: ShutdownAction)
        ensures
            action == shutdown_action(old(self).janitor(), progress),
            action == ShutdownAction::Done ==> {
                &&& final(self)@ == Map::<PK, T>::empty()
                &&& final(self).janitor() == janitor_after_shutdown(old(self).janitor())
                &&& final(self).janitor() != JanitorState::Running
            },
            action != ShutdownAction::Done ==> {
                &&& final(self)@ == old(self)@
                &&& final(self).janitor() == old(self).janitor()
            },
            final(self).capacity() == old(self).capacity(),
    {
        let janitor = self.janitor();
        let running = match janitor {
            JanitorState::Running => true,
            _ => false,
        };
        let action = match progress {
            ShutdownProgress::Requested => ShutdownAction::Signal,
            ShutdownProgress::Signalled => if running {
                ShutdownAction::AwaitJanitor { seconds: JANITOR_GRACE_SECONDS }
            } else {
                ShutdownAction::Done
            },
            ShutdownProgress::JanitorJoined => ShutdownAction::Done,
            ShutdownProgress::JanitorTimedOut => ShutdownAction::AbortJanitor,
            ShutdownProgress::JanitorAborted => ShutdownAction::Done,
        };
        match action {
            ShutdownAction::Done => {
                self.clear();
                if running {
                    self.mark_janitor(JanitorState::Stopped);
                }
            },
            _ => {},
        }
        action
    }
}

} // verus!
