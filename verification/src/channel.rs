//! The connection to the presence display: what is done when it fails.

use crate::event::{AnswerView, NoticeView};
use crate::session::{action_of, initial_session, pushes, stepped, Session, SessionView};
use vstd::prelude::*;

verus! {

/// What is done about the connection after a push.
#[derive(Debug, Clone, Copy, PartialEq, Eq, Structural)]
pub enum Recovery {
    /// Nothing: go on.
    Proceed,
    /// Connect anew, once, and go on whether or not that worked. The payload
    /// is not sent again; the next push will show the record.
    Reconnect,
}

/// What is done after a push: a failed one is answered by one reconnect, a
/// delivered one by nothing.
pub open spec fn recovery_for(delivered: bool) -> Recovery {
    if delivered {
        Recovery::Proceed
    } else {
        Recovery::Reconnect
    }
}

/// Says what to do about the connection after a push.
pub fn after_push(delivered: bool) -> (recovery: Recovery)
    ensures
        recovery == recovery_for(delivered),
{
    if delivered {
        Recovery::Proceed
    } else {
        Recovery::Reconnect
    }
}

/// How the plugin ends.
#[derive(Debug, Clone, Copy, PartialEq, Eq, Structural)]
pub enum Exit {
    /// The player shut down and the session ended in order.
    Finished,
    /// The presence display could not be reached at startup.
    ConnectFailed,
}

impl Exit {
    /// The status that the player gets back: zero for an end in order, a
    /// negative number for a failed start.
    pub open spec fn status_code(self) -> int {
        match self {
            Exit::Finished => 0,
            Exit::ConnectFailed => -1,
        }
    }

    /// The status that the player gets back.
    pub fn status(&self) -> (status: i8)
        ensures
            status == self.status_code(),
    {
        match self {
            Exit::Finished => 0,
            Exit::ConnectFailed => -1,
        }
    }
}

/// Starts the session once the first connect has been tried. Without a
/// connection there is no session: nothing was pushed yet and nothing could
/// be, so the plugin ends at once.
pub fn start(connected: bool) -> (started: Result<Session, Exit>)
    ensures
        match started {
            Ok(session) => connected && session@ == initial_session(),
            Err(exit) => !connected && exit == Exit::ConnectFailed,
        },
{
    if connected {
        Ok(Session::new())
    } else {
        Err(Exit::ConnectFailed)
    }
}

/// A failed push never ends the session. It is answered by a reconnect and by
/// nothing else, and the session has no part in either: whatever became of
/// earlier pushes, a running session keeps running on every notice but the
/// shutdown, and pushes anew on every notice that calls for it.
pub proof fn lemma_session_outlives_failed_push(
    session: SessionView,
    notice: NoticeView,
    answer: AnswerView,
)
    requires
        session.running,
        !(notice is Shutdown),
    ensures
        recovery_for(false) == Recovery::Reconnect,
        stepped(session, notice, answer).running,
        pushes(notice, answer) ==> action_of(session, notice, answer) is Push,
{
}

} // verus!
