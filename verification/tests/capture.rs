use daktilo_tray::capture::{on_capture, Capture, CaptureAction};
use daktilo_tray::command::Command;

#[test]
fn an_observed_key_is_sent_on_unchanged() {
    assert_eq!(on_capture(Capture::Key(42u32)), CaptureAction::Send(Command::KeyEvent(42)));
    assert_eq!(
        on_capture(Capture::Key("KeyPress(KeyA)".to_string())),
        CaptureAction::Send(Command::KeyEvent("KeyPress(KeyA)".to_string()))
    );
}

#[test]
fn a_refused_command_does_not_stop_the_hook() {
    assert_eq!(on_capture::<u32>(Capture::SendFailed), CaptureAction::Continue);
}

#[test]
fn every_observed_key_is_sent_in_order() {
    let sent: Vec<Command<u32>> = [3u32, 1, 2]
        .into_iter()
        .filter_map(|key| match on_capture(Capture::Key(key)) {
            CaptureAction::Send(command) => Some(command),
            CaptureAction::Continue => None,
        })
        .collect();
    assert_eq!(sent, vec![Command::KeyEvent(3), Command::KeyEvent(1), Command::KeyEvent(2)]);
}
