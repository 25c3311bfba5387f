//! oh-my-macro: the verified core of a small desktop macro helper for
//! StarCraft 1.
//!
//! * [`macros`] — the supported macros, their keys and their timing plan.
//! * [`engine`] — the plan executor, written as a state machine.
//! * [`text`] — small verified string helpers.
pub mod building_action;
pub mod building_run;
pub mod building_vision;
pub mod colony;
pub mod colony_limited;
pub mod colony_run;
pub mod config;
pub mod engine;
pub mod font;
pub mod frame;
pub mod hotkey;
pub mod input;
pub mod macros;
pub mod play_area;
pub mod png_decode;
pub mod runner;
pub mod spire_vision;
pub mod stargate_vision;
pub mod text;
pub mod ui_text;
pub mod vacant_colony;
pub mod vacant_run;
pub mod vision;
