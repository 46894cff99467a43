//! The control surface: the tray menu as data, and what a click on it means.
//!
//! A [`ControlSurface`] owns the user-visible state. It renders the menu as a
//! list of entries, each with a stable identifier and the request it stands
//! for, and turns a request into the new state and the one thing the program
//! has to do about it. A request to reconfigure is recorded in the state when
//! it is made: the state says what the user asked for, whether or not the
//! audio worker could follow.

use vstd::prelude::*;
use crate::command::{Command, CommandView};
use crate::registry::{device_views, texts, OutputDevice, OutputDeviceView};
use crate::state::{AppState, AppStateView};
use crate::text::{decimal, decimal_text, same_text};

pub mod laws;

verus! {

/// What the user can ask for.
#[derive(Clone, Copy, Debug, PartialEq, Eq)]
pub enum Request {
    /// Switch playback on or off.
    ToggleEnabled,
    /// Select the preset at this position of the catalogue.
    SelectPreset(usize),
    /// Select the device at this position of the snapshot.
    SelectDevice(usize),
    /// Switch the start at login on or off.
    ToggleAutostart,
    /// Save the state and leave.
    Exit,
}

/// Where an entry stands in the menu.
#[derive(Clone, Copy, Debug, PartialEq, Eq)]
pub enum MenuGroup {
    /// Directly in the tray menu.
    Top,
    /// In the submenu of presets.
    Presets,
    /// In the submenu of devices.
    Devices,
}

/// Which icon the tray shows.
#[derive(Clone, Copy, Debug, PartialEq, Eq)]
pub enum TrayIcon {
    Enabled,
    Disabled,
}

/// One entry of the menu.
#[derive(Clone, Debug, PartialEq, Eq)]
pub struct MenuEntry {
    /// Identifier under which a click on the entry is reported.
    pub id: String,
    pub group: MenuGroup,
    /// Text shown to the user.
    pub text: String,
    /// The check mark, for entries that carry one.
    pub checked: Option<bool>,
    /// What a click on the entry asks for.
    pub request: Request,
}

/// Mathematical value of a [`MenuEntry`].
pub struct MenuEntryView {
    pub id: Seq<char>,
    pub group: MenuGroup,
    pub text: Seq<char>,
    pub checked: Option<bool>,
    pub request: Request,
}

impl View for MenuEntry {
    type V = MenuEntryView;

    open spec fn view(&self) -> MenuEntryView {
        MenuEntryView {
            id: self.id@,
            group: self.group,
            text: self.text@,
            checked: self.checked,
            request: self.request,
        }
    }
}

/// The values of a list of menu entries.
pub open spec fn entry_views(entries: Seq<MenuEntry>) -> Seq<MenuEntryView> {
    entries.map_values(|entry: MenuEntry| entry@)
}

/// The identifiers of a list of menu entries.
pub open spec fn entry_ids(entries: Seq<MenuEntryView>) -> Seq<Seq<char>> {
    entries.map_values(|entry: MenuEntryView| entry.id)
}

/// The request of the first entry with the identifier `id`, if there is one.
pub open spec fn resolved(entries: Seq<MenuEntryView>, id: Seq<char>) -> Option<Request> {
    match entry_ids(entries).index_of_first(id) {
        Some(i) => Some(entries[i].request),
        None => None,
    }
}

/// What the program has to do about a request.
#[derive(Clone, Debug, PartialEq, Eq)]
pub enum Response<E> {
    /// Nothing: the request does not apply.
    Nothing,
    /// Send this command over the control channel.
    Send(Command<E>),
    /// Register or unregister the start at login, then report the outcome
    /// with [`ControlSurface::autostart_applied`].
    SetAutostart(bool),
    /// Store this state and leave.
    SaveAndExit(AppState),
}

/// Mathematical value of a [`Response`].
pub enum ResponseView<E> {
    Nothing,
    Send(CommandView<E>),
    SetAutostart(bool),
    SaveAndExit(AppStateView),
}

impl<E> View for Response<E> {
    type V = ResponseView<E>;

    open spec fn view(&self) -> ResponseView<E> {
        match *self {
            Response::Nothing => ResponseView::Nothing,
            Response::Send(command) => ResponseView::Send(command@),
            Response::SetAutostart(enable) => ResponseView::SetAutostart(enable),
            Response::SaveAndExit(state) => ResponseView::SaveAndExit(state@),
        }
    }
}

/// Text of the entry that switches playback: it names what a click will do.
pub open spec fn enable_text(enabled: bool) -> Seq<char> {
    if enabled {
        "Disable"@
    } else {
        "Enable"@
    }
}

/// Mathematical value of a [`ControlSurface`].
pub struct ControlSurfaceView {
    pub state: AppStateView,
    /// Names of the presets, in catalogue order.
    pub presets: Seq<Seq<char>>,
    /// The devices on offer.
    pub devices: Seq<OutputDeviceView>,
    /// Text of the entry for the start at login, where the platform offers it.
    pub autostart_label: Option<Seq<char>>,
}

impl ControlSurfaceView {
    /// The entry of the preset at `i`: checked if that preset is selected.
    pub open spec fn preset_entry(self, i: int) -> MenuEntryView {
        MenuEntryView {
            id: "preset_"@ + decimal_text(i as nat),
            group: MenuGroup::Presets,
            text: self.presets[i],
            checked: Some(self.presets[i] == self.state.current_preset_name),
            request: Request::SelectPreset(i as usize),
        }
    }

    /// The entry of the device at `i`: checked if that device is selected.
    pub open spec fn device_entry(self, i: int) -> MenuEntryView {
        MenuEntryView {
            id: "device_"@ + decimal_text(i as nat),
            group: MenuGroup::Devices,
            text: self.devices[i].label,
            checked: Some(self.devices[i].name == self.state.current_device_name),
            request: Request::SelectDevice(i as usize),
        }
    }

    /// The entry that switches playback.
    pub open spec fn enable_entry(self) -> MenuEntryView {
        MenuEntryView {
            id: "toggle_enabled"@,
            group: MenuGroup::Top,
            text: enable_text(self.state.enabled),
            checked: None,
            request: Request::ToggleEnabled,
        }
    }

    /// The entry that switches the start at login, labelled `label`.
    pub open spec fn autostart_entry(self, label: Seq<char>) -> MenuEntryView {
        MenuEntryView {
            id: "autostart_toggle"@,
            group: MenuGroup::Top,
            text: label,
            checked: Some(self.state.run_on_login),
            request: Request::ToggleAutostart,
        }
    }

    /// The entry that leaves the program.
    pub open spec fn exit_entry(self) -> MenuEntryView {
        MenuEntryView {
            id: "exit"@,
            group: MenuGroup::Top,
            text: "Exit"@,
            checked: None,
            request: Request::Exit,
        }
    }

    /// The entries for the start at login: one where the platform offers it.
    pub open spec fn autostart_entries(self) -> Seq<MenuEntryView> {
        match self.autostart_label {
            Some(label) => seq![self.autostart_entry(label)],
            None => Seq::empty(),
        }
    }

    /// The menu, top to bottom: the presets, the devices, the playback
    /// switch, the login switch where there is one, the exit.
    pub open spec fn menu(self) -> Seq<MenuEntryView> {
        Seq::new(self.presets.len(), |i: int| self.preset_entry(i)) + Seq::new(
            self.devices.len(),
            |i: int| self.device_entry(i),
        ) + seq![self.enable_entry()] + self.autostart_entries() + seq![self.exit_entry()]
    }

    /// The icon that goes with the state.
    pub open spec fn icon(self) -> TrayIcon {
        if self.state.enabled {
            TrayIcon::Enabled
        } else {
            TrayIcon::Disabled
        }
    }

    /// The state with the preset `preset_name` selected.
    pub open spec fn with_preset(self, preset_name: Seq<char>) -> ControlSurfaceView {
        ControlSurfaceView {
            state: AppStateView { current_preset_name: preset_name, ..self.state },
            ..self
        }
    }

    /// The state with the device `device_name` selected.
    pub open spec fn with_device(self, device_name: Seq<char>) -> ControlSurfaceView {
        ControlSurfaceView {
            state: AppStateView { current_device_name: device_name, ..self.state },
            ..self
        }
    }

    /// The command that asks the audio worker for the selected preset on the
    /// selected device.
    pub open spec fn reconfiguration<E>(self) -> CommandView<E> {
        CommandView::ChangeConfig {
            preset_name: self.state.current_preset_name,
            device_name: self.state.current_device_name,
        }
    }

    /// The state after `request`, and what the program has to do about it.
    pub open spec fn respond<E>(self, request: Request) -> (ControlSurfaceView, ResponseView<E>) {
        match request {
            Request::ToggleEnabled => (
                ControlSurfaceView {
                    state: AppStateView { enabled: !self.state.enabled, ..self.state },
                    ..self
                },
                ResponseView::Send(CommandView::SetEnabled(!self.state.enabled)),
            ),
            Request::SelectPreset(i) => if i < self.presets.len() {
                let next = self.with_preset(self.presets[i as int]);
                (next, ResponseView::Send(next.reconfiguration()))
            } else {
                (self, ResponseView::Nothing)
            },
            Request::SelectDevice(i) => if i < self.devices.len() {
                let next = self.with_device(self.devices[i as int].name);
                (next, ResponseView::Send(next.reconfiguration()))
            } else {
                (self, ResponseView::Nothing)
            },
            Request::ToggleAutostart => if self.autostart_label.is_some() {
                (self, ResponseView::SetAutostart(!self.state.run_on_login))
            } else {
                (self, ResponseView::Nothing)
            },
            Request::Exit => (self, ResponseView::SaveAndExit(self.state)),
        }
    }

    /// The state after the attempt to set the start at login to `desired`:
    /// the setting follows only if the attempt was `applied`.
    pub open spec fn after_autostart(self, desired: bool, applied: bool) -> ControlSurfaceView {
        if applied {
            ControlSurfaceView { state: AppStateView { run_on_login: desired, ..self.state }, ..self }
        } else {
            self
        }
    }
}

/// The user-visible state, with what the menu offers.
pub struct ControlSurface {
    state: AppState,
    presets: Vec<String>,
    devices: Vec<OutputDevice>,
    autostart_label: Option<String>,
}

impl View for ControlSurface {
    type V = ControlSurfaceView;

    closed spec fn view(&self) -> ControlSurfaceView {
        ControlSurfaceView {
            state: self.state@,
            presets: texts(self.presets@),
            devices: device_views(self.devices@),
            autostart_label: match self.autostart_label {
                Some(label) => Some(label@),
                None => None,
            },
        }
    }
}

/// Text of the entry that switches playback: it names what a click will do.
pub fn enable_label(enabled: bool) -> (label: &'static str)
    ensures
        label@ == enable_text(enabled),
{
    if enabled {
        "Disable"
    } else {
        "Enable"
    }
}

/// The request of the first entry of `entries` whose identifier is `id`.
pub fn resolve(entries: &Vec<MenuEntry>, id: &str) -> (request: Option<Request>)
    ensures
        request == resolved(entry_views(entries@), id@),
{
    let ghost ids = entry_ids(entry_views(entries@));
    let mut i: usize = 0;
    while i < entries.len()
        invariant
            i <= entries.len(),
            ids == entry_ids(entry_views(entries@)),
            forall|j: int| 0 <= j < i ==> ids[j] != id@,
        decreases entries.len() - i,
    {
        if same_text(entries[i].id.as_str(), id) {
            proof {
                assert(ids[i as int] == id@);
                ids.index_of_first_ensures(id@);
            }
            return Some(entries[i].request);
        }
        i += 1;
    }
    proof {
        ids.index_of_first_ensures(id@);
    }
    None
}

impl ControlSurface {
    /// A control surface in the state `state` that offers `presets` and
    /// `devices`, and the start at login under `autostart_label` where the
    /// platform supports it.
    pub fn new(
        state: AppState,
        presets: Vec<String>,
        devices: Vec<OutputDevice>,
        autostart_label: Option<String>,
    ) -> (surface: ControlSurface)
        ensures
            surface@ == (ControlSurfaceView {
                state: state@,
                presets: texts(presets@),
                devices: device_views(devices@),
                autostart_label: match autostart_label {
                    Some(label) => Some(label@),
                    None => None,
                },
            }),
    {
        ControlSurface { state, presets, devices, autostart_label }
    }

    /// The user-visible state.
    pub fn state(&self) -> (state: &AppState)
        ensures
            state@ == self@.state,
    {
        &self.state
    }

    /// The icon that goes with the state.
    pub fn icon(&self) -> (icon: TrayIcon)
        ensures
            icon == self@.icon(),
    {
        if self.state.enabled {
            TrayIcon::Enabled
        } else {
            TrayIcon::Disabled
        }
    }

    /// The menu, top to bottom.
    pub fn menu(&self) -> (entries: Vec<MenuEntry>)
        ensures
            entry_views(entries@) == self@.menu(),
    {
        let ghost view = self@;
        let mut entries: Vec<MenuEntry> = Vec::new();
        let mut i: usize = 0;
        while i < self.presets.len()
            invariant
                view == self@,
                i <= self.presets.len(),
                entries.len() == i,
                forall|j: int| 0 <= j < i ==> (#[trigger] entries[j])@ == view.preset_entry(j),
            decreases self.presets.len() - i,
        {
            let mut id = String::from_str("preset_");
            id.append(decimal(i).as_str());
            let checked = self.presets[i] == self.state.current_preset_name;
            entries.push(
                MenuEntry {
                    id,
                    group: MenuGroup::Presets,
                    text: self.presets[i].clone(),
                    checked: Some(checked),
                    request: Request::SelectPreset(i),
                },
            );
            i += 1;
        }
        let preset_count = self.presets.len();
        let mut k: usize = 0;
        while k < self.devices.len()
            invariant
                view == self@,
                preset_count == self.presets.len(),
                k <= self.devices.len(),
                entries.len() == preset_count + k,
                forall|j: int| 0 <= j < preset_count ==> (#[trigger] entries[j])@ == view.preset_entry(j),
                forall|j: int|
                    0 <= j < k ==> (#[trigger] entries[preset_count + j])@ == view.device_entry(j),
            decreases self.devices.len() - k,
        {
            let mut id = String::from_str("device_");
            id.append(decimal(k).as_str());
            let checked = self.devices[k].name == self.state.current_device_name;
            entries.push(
                MenuEntry {
                    id,
                    group: MenuGroup::Devices,
                    text: self.devices[k].label.clone(),
                    checked: Some(checked),
                    request: Request::SelectDevice(k),
                },
            );
            k += 1;
        }
        entries.push(
            MenuEntry {
                id: "toggle_enabled".to_owned(),
                group: MenuGroup::Top,
                text: enable_label(self.state.enabled).to_owned(),
                checked: None,
                request: Request::ToggleEnabled,
            },
        );
        match &self.autostart_label {
            Some(label) => {
                entries.push(
                    MenuEntry {
                        id: "autostart_toggle".to_owned(),
                        group: MenuGroup::Top,
                        text: label.clone(),
                        checked: Some(self.state.run_on_login),
                        request: Request::ToggleAutostart,
                    },
                );
            },
            None => {},
        }
        entries.push(
            MenuEntry {
                id: "exit".to_owned(),
                group: MenuGroup::Top,
                text: "Exit".to_owned(),
                checked: None,
                request: Request::Exit,
            },
        );
        proof {
            let menu = view.menu();
            let device_count = view.devices.len() as int;
            assert(entry_views(entries@).len() == menu.len());
            assert forall|j: int| 0 <= j < menu.len() implies entry_views(entries@)[j] == menu[j] by {
                if j < preset_count {
                } else if j < preset_count + device_count {
                    assert(entries[preset_count + (j - preset_count)]@ == view.device_entry(
                        j - preset_count,
                    ));
                } else {
                }
            }
            assert(entry_views(entries@) =~= menu);
        }
        entries
    }

    /// Applies `request`: updates the state and returns what the program has
    /// to do about it, both as [`ControlSurfaceView::respond`] gives them.
    pub fn handle<E>(&mut self, request: Request) -> (response: Response<E>)
        ensures
            final(self)@ == old(self)@.respond::<E>(request).0,
            response@ == old(self)@.respond::<E>(request).1,
    {
        match request {
            Request::ToggleEnabled => {
                let enabled = !self.state.enabled;
                self.state.enabled = enabled;
                Response::Send(Command::SetEnabled(enabled))
            },
            Request::SelectPreset(i) => {
                if i < self.presets.len() {
                    let preset_name = self.presets[i].clone();
                    self.state.current_preset_name = preset_name.clone();
                    Response::Send(
                        Command::ChangeConfig {
                            preset_name,
                            device_name: self.state.current_device_name.clone(),
                        },
                    )
                } else {
                    Response::Nothing
                }
            },
            Request::SelectDevice(i) => {
                if i < self.devices.len() {
                    let device_name = self.devices[i].name.clone();
                    self.state.current_device_name = device_name.clone();
                    Response::Send(
                        Command::ChangeConfig {
                            preset_name: self.state.current_preset_name.clone(),
                            device_name,
                        },
                    )
                } else {
                    Response::Nothing
                }
            },
            Request::ToggleAutostart => {
                if self.autostart_label.is_some() {
                    Response::SetAutostart(!self.state.run_on_login)
                } else {
                    Response::Nothing
                }
            },
            Request::Exit => Response::SaveAndExit(
                AppState {
                    enabled: self.state.enabled,
                    current_preset_name: self.state.current_preset_name.clone(),
                    current_device_name: self.state.current_device_name.clone(),
                    run_on_login: self.state.run_on_login,
                },
            ),
        }
    }

    /// Records the outcome of the attempt to set the start at login to
    /// `desired`, and returns the check mark to show: the setting follows the
    /// attempt only if it was `applied`.
    pub fn autostart_applied(&mut self, desired: bool, applied: bool) -> (checked: bool)
        ensures
            final(self)@ == old(self)@.after_autostart(desired, applied),
            checked == final(self)@.state.run_on_login,
    {
        if applied {
            self.state.run_on_login = desired;
        }
        self.state.run_on_login
    }
}

} // verus!
