//! The configuration that the user sees and that outlives the process.

use vstd::prelude::*;
use crate::registry::{device_exists, device_listed, device_views, OutputDevice, OutputDeviceView};

verus! {

/// The persisted, user-visible configuration.
#[derive(Clone, Debug, PartialEq, Eq)]
pub struct AppState {
    /// Whether key events are forwarded to the audio worker.
    pub enabled: bool,
    /// Name of the selected sound preset.
    pub current_preset_name: String,
    /// Name of the selected output device, in lower case.
    pub current_device_name: String,
    /// Whether the program starts when the user logs in.
    pub run_on_login: bool,
}

/// Mathematical value of an [`AppState`].
pub struct AppStateView {
    pub enabled: bool,
    pub current_preset_name: Seq<char>,
    pub current_device_name: Seq<char>,
    pub run_on_login: bool,
}

impl View for AppState {
    type V = AppStateView;

    open spec fn view(&self) -> AppStateView {
        AppStateView {
            enabled: self.enabled,
            current_preset_name: self.current_preset_name@,
            current_device_name: self.current_device_name@,
            run_on_login: self.run_on_login,
        }
    }
}

/// The state of a first start on the device `default_device_name`.
pub open spec fn initial_state(default_device_name: Seq<char>) -> AppStateView {
    AppStateView {
        enabled: true,
        current_preset_name: "default"@,
        current_device_name: default_device_name,
        run_on_login: false,
    }
}

/// What a stored state becomes when it is restored against the device
/// snapshot `devices`: a device that is no longer listed gives way to
/// `fallback_device`, everything else is kept.
pub open spec fn restored_state(
    cached: AppStateView,
    devices: Seq<OutputDeviceView>,
    fallback_device: Seq<char>,
) -> AppStateView {
    if device_listed(devices, cached.current_device_name) {
        cached
    } else {
        AppStateView { current_device_name: fallback_device, ..cached }
    }
}

/// The state of a first start: enabled, preset `"default"`, the given device,
/// not started at login.
pub fn default_state(default_device_name: &str) -> (state: AppState)
    ensures
        state@ == initial_state(default_device_name@),
{
    AppState {
        enabled: true,
        current_preset_name: "default".to_owned(),
        current_device_name: default_device_name.to_owned(),
        run_on_login: false,
    }
}

/// Restores a stored state: with its device replaced by `fallback_device`
/// unless that device is still present, and nothing else changed.
pub fn restore_state(stored: AppState, device_present: bool, fallback_device: &str) -> (state: AppState)
    ensures
        state@ == (if device_present {
            stored@
        } else {
            AppStateView { current_device_name: fallback_device@, ..stored@ }
        }),
{
    let mut state = stored;
    if !device_present {
        state.current_device_name = fallback_device.to_owned();
    }
    state
}

/// The state to start with, and whether it was restored.
///
/// `cached` is the stored state where one could be read. It is restored with
/// its device replaced by `fallback_device` if no device of `devices` answers
/// to it any more. Without a stored state the start is a first start on
/// `fallback_device`.
pub fn load_state(cached: Option<AppState>, devices: &Vec<OutputDevice>, fallback_device: &str) -> (loaded: (
    AppState,
    bool,
))
    ensures
        loaded.1 == cached.is_some(),
        loaded.0@ == (match cached {
            Some(stored) => restored_state(stored@, device_views(devices@), fallback_device@),
            None => initial_state(fallback_device@),
        }),
{
    match cached {
        Some(stored) => {
            let device_present = device_exists(devices, stored.current_device_name.as_str());
            (restore_state(stored, device_present, fallback_device), true)
        },
        None => (default_state(fallback_device), false),
    }
}

/// A stored state whose device is gone from the device list comes back on
/// the fallback device, with its other settings as they were stored; one
/// whose device is still listed comes back unchanged.
pub proof fn law_restore_falls_back_on_a_lost_device(
    cached: AppStateView,
    devices: Seq<OutputDeviceView>,
    fallback_device: Seq<char>,
)
    ensures
        ({
            let restored = restored_state(cached, devices, fallback_device);
            &&& !device_listed(devices, cached.current_device_name) ==> restored.current_device_name
                == fallback_device
            &&& device_listed(devices, cached.current_device_name) ==> restored.current_device_name
                == cached.current_device_name
            &&& restored.enabled == cached.enabled
            &&& restored.current_preset_name == cached.current_preset_name
            &&& restored.run_on_login == cached.run_on_login
        }),
{
}

} // verus!
