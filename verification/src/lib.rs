//! Core of a multi-monitor live-wallpaper host.
//!
//! Given a declarative wallpaper configuration and the current monitor
//! topology, the library compiles concrete window placements for three
//! arrangement modes, parses the configuration's JSON wire format, and
//! drives the playback state machine and command dispatch of the
//! render-owner thread. Everything here is pure and verified; the host
//! process around it performs the window-system and D-Bus work.

pub mod playback;
pub mod config;
pub mod text;
pub mod monitor;
pub mod layout;
pub mod launch_mode;
pub mod hanabi;
pub mod json;
pub mod config_parse;
pub mod control;
pub mod widget;
