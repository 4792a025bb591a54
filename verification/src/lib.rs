//! Verified core of a kernel-level macro recorder and player: the data model of
//! recordings and hotkeys, the UI string table, and the decision logic of the
//! recorder, the player, the hotkey listener and the control screen.
pub mod text;
pub mod i18n;
pub mod models;
pub mod player;
pub mod recorder;
pub mod control;
