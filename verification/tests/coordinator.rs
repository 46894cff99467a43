use daktilo_tray::command::Command;
use daktilo_tray::coordinator::{Action, Coordinator, Event, Fatal};
use daktilo_tray::session::{Session, SessionConfig};

/// A worker that records what it is handed.
struct FakeWorker {
    session: Session,
    calls: Vec<u32>,
    retired: bool,
}

/// The loop around a coordinator, with fake workers in place of audio
/// sessions. Workers are kept by session number.
struct Harness {
    coordinator: Coordinator,
    workers: Vec<FakeWorker>,
    broken_device: Option<String>,
    actions: Vec<Action<u32>>,
}

fn names(list: &[&str]) -> Vec<String> {
    list.iter().map(|name| name.to_string()).collect()
}

fn harness(enabled: bool, broken_device: Option<&str>) -> Harness {
    let coordinator = Coordinator::new(
        names(&["default", "soft"]),
        Some(70),
        enabled,
        "default",
        "speakers".to_string(),
    )
    .unwrap();
    let first = FakeWorker { session: coordinator.active().clone(), calls: Vec::new(), retired: false };
    Harness {
        coordinator,
        workers: vec![first],
        broken_device: broken_device.map(|name| name.to_string()),
        actions: Vec::new(),
    }
}

fn perform(harness: &mut Harness, event: Event<u32>) {
    let action = harness.coordinator.step(event);
    harness.actions.push(action.clone());
    match action {
        Action::Wait | Action::Stop | Action::Abort(_) => {}
        Action::HandleKey { session, event } => {
            let worker = &mut harness.workers[session as usize];
            assert!(!worker.retired);
            worker.calls.push(event);
        }
        Action::BuildSession(session) => {
            if harness.broken_device.as_deref() == Some(session.config.device_name.as_str()) {
                perform(harness, Event::SessionFailed(session));
            } else {
                assert_eq!(session.id as usize, harness.workers.len());
                harness.workers.push(FakeWorker {
                    session: session.clone(),
                    calls: Vec::new(),
                    retired: false,
                });
                perform(harness, Event::SessionBuilt(session));
            }
        }
        Action::Retire { session } => {
            harness.workers[session as usize].retired = true;
        }
    }
}

fn send(harness: &mut Harness, command: Command<u32>) {
    perform(harness, Event::Received(command));
}

fn change(preset: &str, device: &str) -> Command<u32> {
    Command::ChangeConfig { preset_name: preset.to_string(), device_name: device.to_string() }
}

fn config(index: usize, preset: &str, device: &str) -> SessionConfig {
    SessionConfig {
        mute_key: Some(70),
        preset_index: index,
        preset_name: preset.to_string(),
        device_name: device.to_string(),
    }
}

#[test]
fn new_starts_with_session_zero() {
    let coordinator =
        Coordinator::new(names(&["default", "soft"]), None, true, "soft", "Speakers".to_string())
            .unwrap();
    assert!(coordinator.enabled());
    assert_eq!(coordinator.mute_key(), None);
    assert_eq!(coordinator.presets(), &names(&["default", "soft"]));
    assert_eq!(
        coordinator.active(),
        &Session {
            id: 0,
            config: SessionConfig {
                mute_key: None,
                preset_index: 1,
                preset_name: "soft".to_string(),
                device_name: "Speakers".to_string(),
            },
        }
    );
}

#[test]
fn new_rejects_unknown_preset() {
    let made = Coordinator::new(names(&["default"]), None, true, "loud", "speakers".to_string());
    assert!(matches!(made, Err(Fatal::UnknownPreset(name)) if name == "loud"));
}

#[test]
fn new_takes_first_of_equal_names() {
    let coordinator =
        Coordinator::new(names(&["a", "b", "b"]), None, false, "b", "x".to_string()).unwrap();
    assert_eq!(coordinator.active().config.preset_index, 1);
    assert!(!coordinator.enabled());
}

#[test]
fn keys_reach_the_worker_in_send_order() {
    let mut h = harness(true, None);
    for key in [5u32, 1, 4, 1, 9, 2] {
        send(&mut h, Command::KeyEvent(key));
    }
    assert_eq!(h.workers[0].calls, vec![5, 1, 4, 1, 9, 2]);
}

#[test]
fn commands_are_answered_one_by_one_in_order() {
    let mut coordinator =
        Coordinator::new(names(&["default", "soft"]), None, true, "default", "speakers".to_string())
            .unwrap();
    let actions = coordinator.run(vec![
        Event::Received(Command::KeyEvent(1u32)),
        Event::Received(Command::SetEnabled(false)),
        Event::Received(Command::KeyEvent(2)),
        Event::Received(Command::SetEnabled(true)),
        Event::Received(Command::KeyEvent(3)),
        Event::KeyFailed,
        Event::Disconnected,
    ]);
    assert_eq!(
        actions,
        vec![
            Action::HandleKey { session: 0, event: 1 },
            Action::Wait,
            Action::Wait,
            Action::Wait,
            Action::HandleKey { session: 0, event: 3 },
            Action::Wait,
            Action::Stop,
        ]
    );
    assert!(coordinator.enabled());
}

#[test]
fn run_agrees_with_single_steps() {
    let events = vec![
        Event::Received(Command::KeyEvent(7u32)),
        Event::Received(change("soft", "Headphones")),
        Event::Received(Command::SetEnabled(false)),
        Event::Received(Command::KeyEvent(8)),
    ];
    let mut stepped =
        Coordinator::new(names(&["default", "soft"]), None, true, "default", "speakers".to_string())
            .unwrap();
    let mut batch =
        Coordinator::new(names(&["default", "soft"]), None, true, "default", "speakers".to_string())
            .unwrap();
    let one_by_one: Vec<Action<u32>> =
        events.iter().cloned().map(|event| stepped.step(event)).collect();
    assert_eq!(batch.run(events), one_by_one);
    assert_eq!(batch.enabled(), stepped.enabled());
    assert_eq!(batch.active(), stepped.active());
}

#[test]
fn disabled_key_events_reach_no_worker() {
    let mut h = harness(false, None);
    for key in 0..10u32 {
        send(&mut h, Command::KeyEvent(key));
    }
    assert!(h.workers[0].calls.is_empty());
    assert!(h.actions.iter().all(|action| *action == Action::Wait));
    assert!(!h.coordinator.enabled());
}

#[test]
fn toggle_drops_exactly_the_disabled_burst() {
    let mut h = harness(true, None);
    for key in [1u32, 2, 3] {
        send(&mut h, Command::KeyEvent(key));
    }
    send(&mut h, Command::SetEnabled(false));
    for key in [4u32, 5] {
        send(&mut h, Command::KeyEvent(key));
    }
    send(&mut h, Command::SetEnabled(true));
    for key in [6u32, 7, 8] {
        send(&mut h, Command::KeyEvent(key));
    }
    assert_eq!(h.workers.len(), 1);
    assert_eq!(h.workers[0].calls, vec![1, 2, 3, 6, 7, 8]);
}

#[test]
fn set_enabled_leaves_the_session_alone() {
    let mut h = harness(true, None);
    let before = h.coordinator.active().clone();
    send(&mut h, Command::SetEnabled(false));
    assert_eq!(h.actions, vec![Action::Wait]);
    assert!(!h.coordinator.enabled());
    assert_eq!(h.coordinator.active(), &before);
    send(&mut h, Command::SetEnabled(false));
    assert!(!h.coordinator.enabled());
}

#[test]
fn change_config_scenario() {
    let mut h = harness(true, None);
    send(&mut h, change("soft", "headphones"));
    for key in [11u32, 12, 13] {
        send(&mut h, Command::KeyEvent(key));
    }
    assert_eq!(h.workers.len(), 2);
    assert!(h.workers[0].calls.is_empty());
    assert!(h.workers[0].retired);
    assert_eq!(h.workers[1].session.config, config(1, "soft", "headphones"));
    assert_eq!(h.workers[1].calls, vec![11, 12, 13]);
    assert!(!h.workers[1].retired);
    assert_eq!(
        h.actions,
        vec![
            Action::BuildSession(Session { id: 1, config: config(1, "soft", "headphones") }),
            Action::Retire { session: 0 },
            Action::HandleKey { session: 1, event: 11 },
            Action::HandleKey { session: 1, event: 12 },
            Action::HandleKey { session: 1, event: 13 },
        ]
    );
}

#[test]
fn keys_before_a_change_go_to_the_old_session() {
    let mut h = harness(true, None);
    send(&mut h, Command::KeyEvent(1));
    send(&mut h, Command::KeyEvent(2));
    send(&mut h, change("soft", "speakers"));
    send(&mut h, Command::KeyEvent(3));
    send(&mut h, change("default", "headphones"));
    send(&mut h, Command::KeyEvent(4));
    send(&mut h, Command::KeyEvent(5));
    assert_eq!(h.workers.len(), 3);
    assert_eq!(h.workers[0].calls, vec![1, 2]);
    assert_eq!(h.workers[1].calls, vec![3]);
    assert_eq!(h.workers[2].calls, vec![4, 5]);
    assert_eq!(h.workers[2].session, Session { id: 2, config: config(0, "default", "headphones") });
    assert!(h.workers[0].retired && h.workers[1].retired && !h.workers[2].retired);
}

#[test]
fn change_to_the_same_config_still_replaces_the_session() {
    let mut h = harness(true, None);
    send(&mut h, Command::KeyEvent(1));
    send(&mut h, change("default", "speakers"));
    send(&mut h, Command::KeyEvent(2));
    assert_eq!(h.workers.len(), 2);
    assert_eq!(h.workers[0].calls, vec![1]);
    assert_eq!(h.workers[1].calls, vec![2]);
    assert_eq!(h.workers[1].session.config, h.workers[0].session.config);
    assert_eq!(h.coordinator.active().id, 1);
}

#[test]
fn change_config_lowers_the_device_name() {
    let mut h = harness(true, None);
    send(&mut h, change("soft", "USB HeadPhones"));
    assert_eq!(h.coordinator.active().config.device_name, "usb headphones");
    assert_eq!(h.coordinator.active().config.preset_name, "soft");
    assert_eq!(h.coordinator.active().config.preset_index, 1);
    assert_eq!(h.coordinator.active().config.mute_key, Some(70));
}

#[test]
fn failed_build_keeps_the_previous_session() {
    let mut h = harness(true, Some("headphones"));
    send(&mut h, Command::KeyEvent(1));
    send(&mut h, change("soft", "headphones"));
    send(&mut h, Command::KeyEvent(2));
    send(&mut h, Command::KeyEvent(3));
    assert_eq!(h.workers.len(), 1);
    assert_eq!(h.workers[0].calls, vec![1, 2, 3]);
    assert!(!h.workers[0].retired);
    assert_eq!(h.coordinator.active(), &Session { id: 0, config: config(0, "default", "speakers") });
    assert_eq!(
        h.actions,
        vec![
            Action::HandleKey { session: 0, event: 1 },
            Action::BuildSession(Session { id: 1, config: config(1, "soft", "headphones") }),
            Action::Wait,
            Action::HandleKey { session: 0, event: 2 },
            Action::HandleKey { session: 0, event: 3 },
        ]
    );
}

#[test]
fn a_change_after_a_failed_build_gets_the_same_number() {
    let mut h = harness(true, Some("headphones"));
    send(&mut h, change("soft", "headphones"));
    send(&mut h, change("soft", "speakers"));
    send(&mut h, Command::KeyEvent(9));
    assert_eq!(h.workers.len(), 2);
    assert_eq!(h.workers[1].session, Session { id: 1, config: config(1, "soft", "speakers") });
    assert_eq!(h.workers[1].calls, vec![9]);
    assert!(h.workers[0].calls.is_empty());
}

#[test]
fn unknown_preset_aborts_and_changes_nothing() {
    let mut h = harness(true, None);
    send(&mut h, change("loud", "headphones"));
    assert_eq!(h.actions, vec![Action::Abort(Fatal::UnknownPreset("loud".to_string()))]);
    assert_eq!(h.coordinator.active(), &Session { id: 0, config: config(0, "default", "speakers") });
    assert_eq!(h.workers.len(), 1);
}

#[test]
fn disconnected_stops_the_loop() {
    let mut h = harness(true, None);
    perform(&mut h, Event::Disconnected);
    assert_eq!(h.actions, vec![Action::Stop]);
    assert!(h.coordinator.enabled());
}

#[test]
fn a_failed_key_does_not_end_the_loop() {
    let mut h = harness(true, None);
    send(&mut h, Command::KeyEvent(1));
    perform(&mut h, Event::KeyFailed);
    send(&mut h, Command::KeyEvent(2));
    assert_eq!(
        h.actions,
        vec![
            Action::HandleKey { session: 0, event: 1 },
            Action::Wait,
            Action::HandleKey { session: 0, event: 2 },
        ]
    );
}

#[test]
fn a_session_that_was_not_asked_for_is_ignored() {
    let mut h = harness(true, None);
    let stale = Session { id: 5, config: config(1, "soft", "headphones") };
    assert!(!h.coordinator.accepts(&stale));
    let action = h.coordinator.step::<u32>(Event::SessionBuilt(stale));
    assert_eq!(action, Action::Wait);
    assert_eq!(h.coordinator.active().id, 0);

    let wrong_preset = Session { id: 1, config: config(0, "soft", "headphones") };
    assert!(!h.coordinator.accepts(&wrong_preset));
    let out_of_range = Session { id: 1, config: config(2, "soft", "headphones") };
    assert!(!h.coordinator.accepts(&out_of_range));
    let mut wrong_key = Session { id: 1, config: config(1, "soft", "headphones") };
    wrong_key.config.mute_key = None;
    assert!(!h.coordinator.accepts(&wrong_key));
    let same_number = Session { id: 0, config: config(1, "soft", "headphones") };
    assert!(!h.coordinator.accepts(&same_number));

    let next = Session { id: 1, config: config(1, "soft", "headphones") };
    assert!(h.coordinator.accepts(&next));
    let action = h.coordinator.step::<u32>(Event::SessionBuilt(next.clone()));
    assert_eq!(action, Action::Retire { session: 0 });
    assert_eq!(h.coordinator.active(), &next);
}

#[test]
fn reconfigure_takes_the_device_name_as_given() {
    let h = harness(true, None);
    let action: Action<u32> =
        h.coordinator.reconfigure("soft".to_string(), "Head Phones".to_string());
    assert_eq!(
        action,
        Action::BuildSession(Session { id: 1, config: config(1, "soft", "Head Phones") })
    );
    let unknown: Action<u32> = h.coordinator.reconfigure("".to_string(), "x".to_string());
    assert_eq!(unknown, Action::Abort(Fatal::UnknownPreset(String::new())));
}

#[test]
fn a_failed_report_changes_nothing() {
    let mut h = harness(false, None);
    let before = h.coordinator.active().clone();
    let action = h
        .coordinator
        .step::<u32>(Event::SessionFailed(Session { id: 1, config: config(1, "soft", "x") }));
    assert_eq!(action, Action::Wait);
    assert_eq!(h.coordinator.active(), &before);
    assert!(!h.coordinator.enabled());
}

#[test]
fn with_session_takes_over_a_running_session() {
    let running = Session { id: 41, config: config(1, "soft", "headphones") };
    let mut coordinator =
        Coordinator::with_session(names(&["default", "soft"]), true, running.clone()).unwrap();
    assert_eq!(coordinator.active(), &running);
    assert_eq!(coordinator.mute_key(), Some(70));
    assert_eq!(
        coordinator.step(Event::Received(Command::KeyEvent(3u32))),
        Action::HandleKey { session: 41, event: 3 }
    );
    assert_eq!(
        coordinator.step(Event::Received(change("default", "Speakers"))),
        Action::BuildSession(Session { id: 42, config: config(0, "default", "speakers") })
    );
}

#[test]
fn with_session_rejects_a_session_from_another_catalogue() {
    let misplaced = Session { id: 0, config: config(0, "soft", "headphones") };
    assert!(matches!(
        Coordinator::with_session(names(&["default", "soft"]), true, misplaced),
        Err(Fatal::UnknownPreset(name)) if name == "soft"
    ));
    let beyond = Session { id: 0, config: config(2, "soft", "headphones") };
    assert!(matches!(
        Coordinator::with_session(names(&["default", "soft"]), true, beyond),
        Err(Fatal::UnknownPreset(name)) if name == "soft"
    ));
}

#[test]
fn the_last_session_number_cannot_be_followed() {
    let last = Session { id: u64::MAX, config: config(0, "default", "speakers") };
    let mut coordinator =
        Coordinator::with_session(names(&["default", "soft"]), true, last.clone()).unwrap();
    let action = coordinator.step::<u32>(Event::Received(change("soft", "headphones")));
    assert_eq!(action, Action::Abort(Fatal::SessionsExhausted));
    assert_eq!(coordinator.active(), &last);
    assert_eq!(
        coordinator.step(Event::Received(Command::KeyEvent(1u32))),
        Action::HandleKey { session: u64::MAX, event: 1 }
    );
    let unknown = coordinator.step::<u32>(Event::Received(change("loud", "headphones")));
    assert_eq!(unknown, Action::Abort(Fatal::UnknownPreset("loud".to_string())));
}

#[test]
fn the_session_before_the_last_can_still_be_followed() {
    let running = Session { id: u64::MAX - 1, config: config(0, "default", "speakers") };
    let mut h = harness(true, None);
    h.coordinator = Coordinator::with_session(names(&["default", "soft"]), true, running).unwrap();
    let action = h.coordinator.step::<u32>(Event::Received(change("soft", "headphones")));
    let expected = Session { id: u64::MAX, config: config(1, "soft", "headphones") };
    assert_eq!(action, Action::BuildSession(expected.clone()));
    assert_eq!(
        h.coordinator.step::<u32>(Event::SessionBuilt(expected.clone())),
        Action::Retire { session: u64::MAX - 1 }
    );
    assert_eq!(h.coordinator.active(), &expected);
}

#[test]
fn an_empty_run_changes_nothing() {
    let mut h = harness(true, None);
    let before = h.coordinator.active().clone();
    assert!(h.coordinator.run(Vec::<Event<u32>>::new()).is_empty());
    assert_eq!(h.coordinator.active(), &before);
    assert!(h.coordinator.enabled());
}
