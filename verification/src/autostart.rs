//! Start at login: the packaged defaults, the reconciliation at startup and
//! the self-check.
//!
//! The platform's registration is reached through three calls: whether the
//! service is available, whether the program is registered, and a request to
//! register or unregister it. This module decides what to ask and what the
//! answers mean; the calls themselves are made by the program, one at a time,
//! each on the order of a step function and each answered by a report.

use vstd::prelude::*;

pub mod probe;
pub mod startup;

verus! {

/// The text of an optional string.
pub open spec fn option_text(text: Option<String>) -> Option<Seq<char>> {
    match text {
        Some(text) => Some(text@),
        None => None,
    }
}

/// Label of the login entry where the packaging names none.
pub open spec fn default_menu_label() -> Seq<char> {
    "Launch Daktilo Tray at login"@
}

/// The `autostart` table of the packaging metadata.
#[derive(Clone, Debug, PartialEq, Eq)]
pub struct DistAutostart {
    pub default_enabled: Option<bool>,
    pub menu_label: Option<String>,
    pub tooltip: Option<String>,
}

/// The `dist` table of the packaging metadata.
#[derive(Clone, Debug, PartialEq, Eq)]
pub struct DistSection {
    pub autostart: Option<DistAutostart>,
}

/// The `metadata` table of the packaging metadata.
#[derive(Clone, Debug, PartialEq, Eq)]
pub struct WorkspaceMetadata {
    pub dist: Option<DistSection>,
}

/// The `workspace` table of the packaging metadata.
#[derive(Clone, Debug, PartialEq, Eq)]
pub struct WorkspaceSection {
    pub metadata: Option<WorkspaceMetadata>,
}

/// The packaging metadata, as far as the start at login reads it.
#[derive(Clone, Debug, PartialEq, Eq)]
pub struct DistWorkspace {
    pub workspace: Option<WorkspaceSection>,
}

/// The `workspace.metadata.dist.autostart` table of `config`, where every
/// table on the way is present.
pub open spec fn autostart_table(config: Option<DistWorkspace>) -> Option<DistAutostart> {
    match config {
        Some(DistWorkspace {
            workspace: Some(
                WorkspaceSection {
                    metadata: Some(WorkspaceMetadata { dist: Some(DistSection { autostart }) }),
                },
            ),
        }) => autostart,
        _ => None,
    }
}

/// How the start at login is offered and what it defaults to.
#[derive(Clone, Debug, PartialEq, Eq)]
pub struct AutostartDefaults {
    /// Whether a first start registers the program.
    pub default_enabled: bool,
    /// Text of the menu entry.
    pub menu_label: String,
    /// A note on the entry, if the packaging gives one.
    pub tooltip: Option<String>,
}

/// Mathematical value of an [`AutostartDefaults`].
pub struct AutostartDefaultsView {
    pub default_enabled: bool,
    pub menu_label: Seq<char>,
    pub tooltip: Option<Seq<char>>,
}

impl View for AutostartDefaults {
    type V = AutostartDefaultsView;

    open spec fn view(&self) -> AutostartDefaultsView {
        AutostartDefaultsView {
            default_enabled: self.default_enabled,
            menu_label: self.menu_label@,
            tooltip: option_text(self.tooltip),
        }
    }
}

/// The defaults where the packaging says nothing: off, with the standard
/// label and no note.
pub open spec fn builtin_defaults() -> AutostartDefaultsView {
    AutostartDefaultsView { default_enabled: false, menu_label: default_menu_label(), tooltip: None }
}

/// The defaults that the packaging metadata `config` asks for: what its
/// autostart table sets, the built-in value for what it leaves out, and the
/// built-in defaults where there is no such table.
pub open spec fn defaults_of(config: Option<DistWorkspace>) -> AutostartDefaultsView {
    match autostart_table(config) {
        Some(table) => AutostartDefaultsView {
            default_enabled: match table.default_enabled {
                Some(enabled) => enabled,
                None => false,
            },
            menu_label: match table.menu_label {
                Some(label) => label@,
                None => default_menu_label(),
            },
            tooltip: option_text(table.tooltip),
        },
        None => builtin_defaults(),
    }
}

impl Default for AutostartDefaults {
    fn default() -> (defaults: AutostartDefaults)
        ensures
            defaults@ == builtin_defaults(),
    {
        AutostartDefaults {
            default_enabled: false,
            menu_label: "Launch Daktilo Tray at login".to_owned(),
            tooltip: None,
        }
    }
}

impl AutostartDefaults {
    /// The defaults that the packaging metadata asks for. `config` is the
    /// metadata where it could be read.
    pub fn load(config: Option<DistWorkspace>) -> (defaults: AutostartDefaults)
        ensures
            defaults@ == defaults_of(config),
    {
        let table = match config {
            Some(DistWorkspace {
                workspace: Some(
                    WorkspaceSection {
                        metadata: Some(WorkspaceMetadata { dist: Some(DistSection { autostart }) }),
                    },
                ),
            }) => autostart,
            _ => None,
        };
        match table {
            Some(table) => AutostartDefaults {
                default_enabled: match table.default_enabled {
                    Some(enabled) => enabled,
                    None => false,
                },
                menu_label: match table.menu_label {
                    Some(label) => label,
                    None => "Launch Daktilo Tray at login".to_owned(),
                },
                tooltip: table.tooltip,
            },
            None => AutostartDefaults {
                default_enabled: false,
                menu_label: "Launch Daktilo Tray at login".to_owned(),
                tooltip: None,
            },
        }
    }

    /// Text of the menu entry.
    pub fn menu_label(&self) -> (label: &str)
        ensures
            label@ == self@.menu_label,
    {
        self.menu_label.as_str()
    }

    /// The note on the entry, if there is one.
    pub fn description(&self) -> (note: Option<&str>)
        ensures
            match note {
                Some(text) => self@.tooltip == Some(text@),
                None => self@.tooltip.is_none(),
            },
    {
        match &self.tooltip {
            Some(text) => Some(text.as_str()),
            None => None,
        }
    }
}

/// What the program reports of a call to the platform's service.
#[derive(Debug, PartialEq, Eq)]
pub enum AutostartReport {
    /// Whether the service is available.
    Availability(bool),
    /// Whether the program is registered, or why that could not be read.
    Queried(Result<bool, String>),
    /// That the request to register or unregister went through, or why not.
    SetDone(Result<(), String>),
}

/// Mathematical value of an [`AutostartReport`].
pub enum AutostartReportView {
    Availability(bool),
    Queried(Result<bool, Seq<char>>),
    SetDone(Result<(), Seq<char>>),
}

impl View for AutostartReport {
    type V = AutostartReportView;

    open spec fn view(&self) -> AutostartReportView {
        match *self {
            AutostartReport::Availability(available) => AutostartReportView::Availability(available),
            AutostartReport::Queried(Ok(registered)) => AutostartReportView::Queried(Ok(registered)),
            AutostartReport::Queried(Err(reason)) => AutostartReportView::Queried(Err(reason@)),
            AutostartReport::SetDone(Ok(_)) => AutostartReportView::SetDone(Ok(())),
            AutostartReport::SetDone(Err(reason)) => AutostartReportView::SetDone(Err(reason@)),
        }
    }
}

/// Why the self-check of the start at login failed.
#[derive(Clone, Debug, PartialEq, Eq)]
pub enum ProbeError {
    /// The platform has no such service.
    Unsupported,
    /// The request to register or unregister was refused, for this reason.
    SetFailed(String),
    /// The platform reports another registration than the one asked for.
    Mismatch { expected: bool, observed: bool },
    /// The registration could not be read back, for this reason.
    VerifyFailed(String),
    /// A report came that the check was not waiting for.
    OutOfTurn,
}

/// Mathematical value of a [`ProbeError`].
pub enum ProbeErrorView {
    Unsupported,
    SetFailed(Seq<char>),
    Mismatch { expected: bool, observed: bool },
    VerifyFailed(Seq<char>),
    OutOfTurn,
}

impl View for ProbeError {
    type V = ProbeErrorView;

    open spec fn view(&self) -> ProbeErrorView {
        match *self {
            ProbeError::Unsupported => ProbeErrorView::Unsupported,
            ProbeError::SetFailed(reason) => ProbeErrorView::SetFailed(reason@),
            ProbeError::Mismatch { expected, observed } => ProbeErrorView::Mismatch { expected, observed },
            ProbeError::VerifyFailed(reason) => ProbeErrorView::VerifyFailed(reason@),
            ProbeError::OutOfTurn => ProbeErrorView::OutOfTurn,
        }
    }
}

/// How a truth value is written.
pub open spec fn bool_text(value: bool) -> Seq<char> {
    if value {
        "true"@
    } else {
        "false"@
    }
}

/// The message of a failed self-check.
pub open spec fn probe_message(error: ProbeErrorView) -> Seq<char> {
    match error {
        ProbeErrorView::Unsupported => "Autostart is not supported on this platform"@,
        ProbeErrorView::SetFailed(reason) => "Failed to set autostart preference: "@ + reason,
        ProbeErrorView::Mismatch { expected, observed } => "Autostart verification mismatch. Expected "@
            + bool_text(expected) + ", observed "@ + bool_text(observed),
        ProbeErrorView::VerifyFailed(reason) => "Failed to verify autostart state: "@ + reason,
        ProbeErrorView::OutOfTurn => "Autostart check was reported out of turn"@,
    }
}

fn bool_str(value: bool) -> (text: &'static str)
    ensures
        text@ == bool_text(value),
{
    if value {
        "true"
    } else {
        "false"
    }
}

impl ProbeError {
    /// The message to report.
    pub fn message(&self) -> (text: String)
        ensures
            text@ == probe_message(self@),
    {
        match self {
            ProbeError::Unsupported => "Autostart is not supported on this platform".to_owned(),
            ProbeError::SetFailed(reason) => {
                let mut text = String::from_str("Failed to set autostart preference: ");
                text.append(reason.as_str());
                text
            },
            ProbeError::Mismatch { expected, observed } => {
                let mut text = String::from_str("Autostart verification mismatch. Expected ");
                text.append(bool_str(*expected));
                text.append(", observed ");
                text.append(bool_str(*observed));
                text
            },
            ProbeError::VerifyFailed(reason) => {
                let mut text = String::from_str("Failed to verify autostart state: ");
                text.append(reason.as_str());
                text
            },
            ProbeError::OutOfTurn => "Autostart check was reported out of turn".to_owned(),
        }
    }
}

} // verus!
