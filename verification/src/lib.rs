//! Coordination core of a tray utility that plays typewriter sounds on key
//! presses.
//!
//! Three parties talk over one ordered channel: the keyboard hook sends key
//! events, the tray menu sends requests, and a single consumer drives the audio
//! worker. This crate holds every decision of that consumer and of the menu as
//! verified functions on plain values; the program around it performs the
//! actions they return.

pub mod text;
pub mod registry;
pub mod session;
pub mod command;
pub mod capture;
pub mod coordinator;
pub mod state;
pub mod control;
pub mod autostart;
pub mod icon;
