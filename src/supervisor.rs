use vstd::prelude::*;

use crate::errors::SetupError;
use crate::session::{is_final, Stage};

verus! {

/// `SIGABRT` on Linux: the signal that an aborting process dies of.
pub const SIGABRT: i32 = 6;

/// How the helper process ended, as the parent's wait reports it.
#[derive(Debug, Clone, Copy, PartialEq, Eq, Structural)]
pub enum ChildStatus {
    /// It exited normally with this code.
    Exited { code: i32 },
    /// It was terminated by this signal.
    Signaled { signal: i32 },
    /// The wait returned some other status.
    Other,
    /// The wait itself failed with this error number.
    WaitFailed { errno: i32 },
}

/// The overall result that the parent reports for a status of the helper:
/// success exactly when the helper exited with code 0.
pub open spec fn parent_result(status: ChildStatus) -> Result<(), SetupError> {
    match status {
        ChildStatus::Exited { code } => if code == 0 {
            Ok(())
        } else {
            Err(SetupError::ChildFailed { code })
        },
        ChildStatus::Signaled { signal } => Err(SetupError::ChildSignaled { signal }),
        ChildStatus::Other => Err(SetupError::ChildStatusUnknown),
        ChildStatus::WaitFailed { .. } => Err(SetupError::Wait),
    }
}

/// How a helper that has reached a final stage ends: with exit code 0 after
/// bringing the loopback device up, by `SIGABRT` after a fatal error.
pub open spec fn child_status_of(s: Stage) -> ChildStatus {
    if s is LoopbackUp {
        ChildStatus::Exited { code: 0 }
    } else {
        ChildStatus::Signaled { signal: SIGABRT }
    }
}

/// Interprets the helper's termination as the overall result of the setup.
pub fn run_parent(status: ChildStatus) -> (r: Result<(), SetupError>)
    ensures
        r == parent_result(status),
        r is Ok <==> status == (ChildStatus::Exited { code: 0 }),
{
    match status {
        ChildStatus::Exited { code } => if code == 0 {
            Ok(())
        } else {
            Err(SetupError::ChildFailed { code })
        },
        ChildStatus::Signaled { signal } => Err(SetupError::ChildSignaled { signal }),
        ChildStatus::Other => Err(SetupError::ChildStatusUnknown),
        ChildStatus::WaitFailed { .. } => Err(SetupError::Wait),
    }
}

/// What the parent reports follows how the helper ended: an exit with code 0
/// is success, an exit with any other code is failure, and death by a signal is
/// failure too, under a classification of its own.
pub proof fn lemma_parent_matches_child(code: i32, signal: i32)
    ensures
        parent_result(ChildStatus::Exited { code: 0 }) is Ok,
        code != 0 ==> parent_result(ChildStatus::Exited { code }) == Err::<(), SetupError>(
            SetupError::ChildFailed { code },
        ),
        parent_result(ChildStatus::Signaled { signal }) == Err::<(), SetupError>(
            SetupError::ChildSignaled { signal },
        ),
        parent_result(ChildStatus::Exited { code }) != parent_result(
            ChildStatus::Signaled { signal },
        ),
{
}

/// A helper that has finished its session makes the parent report success
/// exactly when the session ended with the loopback device up.
pub proof fn lemma_parent_matches_session(s: Stage)
    requires
        is_final(s),
    ensures
        parent_result(child_status_of(s)) is Ok <==> s == Stage::LoopbackUp,
{
}

} // verus!
