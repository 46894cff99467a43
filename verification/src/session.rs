//! Sessions of the audio worker and the configuration each one is built from.

use vstd::prelude::*;

verus! {

/// What an audio session is built from.
#[derive(Clone, Debug, PartialEq, Eq)]
pub struct SessionConfig {
    /// Code of the key that mutes playback, if one is set.
    pub mute_key: Option<u32>,
    /// Position of the preset in the catalogue.
    pub preset_index: usize,
    /// Name of that preset.
    pub preset_name: String,
    /// Name of the output device, in lower case.
    pub device_name: String,
}

/// Mathematical value of a [`SessionConfig`].
pub struct SessionConfigView {
    pub mute_key: Option<u32>,
    pub preset_index: int,
    pub preset_name: Seq<char>,
    pub device_name: Seq<char>,
}

impl View for SessionConfig {
    type V = SessionConfigView;

    open spec fn view(&self) -> SessionConfigView {
        SessionConfigView {
            mute_key: self.mute_key,
            preset_index: self.preset_index as int,
            preset_name: self.preset_name@,
            device_name: self.device_name@,
        }
    }
}

/// One live instance of the audio worker.
///
/// Sessions are numbered in the order in which they became active, from 0, so
/// that two sessions built from the same configuration are still told apart.
#[derive(Clone, Debug, PartialEq, Eq)]
pub struct Session {
    pub id: u64,
    pub config: SessionConfig,
}

/// Mathematical value of a [`Session`].
pub struct SessionView {
    pub id: int,
    pub config: SessionConfigView,
}

impl View for Session {
    type V = SessionView;

    open spec fn view(&self) -> SessionView {
        SessionView { id: self.id as int, config: self.config@ }
    }
}

} // verus!
