use daktilo_tray::registry::list_devices;
use daktilo_tray::state::{default_state, load_state, restore_state, AppState};

fn stored(device: &str) -> AppState {
    AppState {
        enabled: false,
        current_preset_name: "soft".to_string(),
        current_device_name: device.to_string(),
        run_on_login: true,
    }
}

fn live() -> Vec<daktilo_tray::registry::OutputDevice> {
    list_devices(Some(vec![Some("Speakers".to_string()), None, Some("Headphones".to_string())]))
}

#[test]
fn default_state_is_a_first_start() {
    assert_eq!(
        default_state("speakers"),
        AppState {
            enabled: true,
            current_preset_name: "default".to_string(),
            current_device_name: "speakers".to_string(),
            run_on_login: false,
        }
    );
}

#[test]
fn load_state_without_cache_starts_fresh() {
    let (state, restored) = load_state(None, &live(), "speakers");
    assert!(!restored);
    assert_eq!(state, default_state("speakers"));
}

#[test]
fn load_state_keeps_a_listed_device() {
    let (state, restored) = load_state(Some(stored("headphones")), &live(), "speakers");
    assert!(restored);
    assert_eq!(state, stored("headphones"));
}

#[test]
fn load_state_falls_back_when_the_device_is_gone() {
    let (state, restored) = load_state(Some(stored("usb dac")), &live(), "speakers");
    assert!(restored);
    assert_eq!(state, stored("speakers"));
}

#[test]
fn load_state_falls_back_without_any_device() {
    let (state, restored) = load_state(Some(stored("headphones")), &Vec::new(), "default");
    assert!(restored);
    assert_eq!(state, stored("default"));
}

#[test]
fn load_state_compares_with_lowered_names() {
    let (state, _) = load_state(Some(stored("Headphones")), &live(), "speakers");
    assert_eq!(state.current_device_name, "speakers");
}

#[test]
fn restore_state_replaces_only_the_device() {
    assert_eq!(restore_state(stored("gone"), false, "speakers"), stored("speakers"));
    assert_eq!(restore_state(stored("gone"), true, "speakers"), stored("gone"));
}
