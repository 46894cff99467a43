//! The vocabulary of the control channel.

use vstd::prelude::*;

verus! {

/// One unit of work on the control channel.
///
/// `E` is the key event as the keyboard hook delivers it. The library never
/// looks inside one: it passes it on or drops it.
#[derive(Clone, Debug, PartialEq, Eq)]
pub enum Command<E> {
    /// A key was pressed or released.
    KeyEvent(E),
    /// Rebuild the audio session with this preset on this device.
    ChangeConfig { preset_name: String, device_name: String },
    /// Switch the forwarding of key events on or off.
    SetEnabled(bool),
}

/// Mathematical value of a [`Command`].
pub enum CommandView<E> {
    KeyEvent(E),
    ChangeConfig { preset_name: Seq<char>, device_name: Seq<char> },
    SetEnabled(bool),
}

impl<E> View for Command<E> {
    type V = CommandView<E>;

    open spec fn view(&self) -> CommandView<E> {
        match *self {
            Command::KeyEvent(event) => CommandView::KeyEvent(event),
            Command::ChangeConfig { preset_name, device_name } => CommandView::ChangeConfig {
                preset_name: preset_name@,
                device_name: device_name@,
            },
            Command::SetEnabled(enabled) => CommandView::SetEnabled(enabled),
        }
    }
}

} // verus!
