//! The input capture adapter: from the keyboard hook to the control channel.
//!
//! The hook's thread hands every key transition it observes to the channel
//! and never stops by itself: a command that the channel refuses is lost, and
//! the thread goes on listening.

use vstd::prelude::*;
use crate::command::{Command, CommandView};

verus! {

/// What the hook's thread reports.
#[derive(Clone, Debug, PartialEq, Eq)]
pub enum Capture<E> {
    /// The hook observed a key transition.
    Key(E),
    /// The channel refused the last command: its receiver is gone.
    SendFailed,
}

/// What the hook's thread does next.
#[derive(Clone, Debug, PartialEq, Eq)]
pub enum CaptureAction<E> {
    /// Send this command, then go on listening.
    Send(Command<E>),
    /// Go on listening.
    Continue,
}

/// The next thing to do: an observed key transition is sent on as a key
/// event, unchanged, and a refused command changes nothing.
pub fn on_capture<E>(report: Capture<E>) -> (action: CaptureAction<E>)
    ensures
        match report {
            Capture::Key(key) => action matches CaptureAction::Send(command) && command@
                == CommandView::KeyEvent(key),
            Capture::SendFailed => action is Continue,
        },
{
    match report {
        Capture::Key(key) => CaptureAction::Send(Command::KeyEvent(key)),
        Capture::SendFailed => CaptureAction::Continue,
    }
}

} // verus!
