//! Verified core of the egakareta level editor and game shell: phase
//! transitions, editor selection and history, grid snapping, nudges and
//! drags, the level explorer's names and groups, timeline taps, keyboard
//! command mapping, pause and practice sessions, authentication flow and
//! audio bookkeeping.
//!
//! World coordinates are fixed-point: one grid cell is `CELL` units
//! (thousandths of a cell).

pub mod types;
pub mod strings;
pub mod sorted;
pub mod fixed;
pub mod blocks;
pub mod selection;
pub mod taps;
pub mod tap_times;
pub mod snapping;
pub mod editor_subsystem;
pub mod drag;
pub mod auth;
pub mod commands;
pub mod keymap;
pub mod state;
pub mod state_editor;
pub mod state_blocks;
pub mod state_phase;
pub mod state_session;
pub mod state_input;
pub mod state_dispatch;
pub mod state_level;
pub mod import;
pub mod state_explorer;
pub mod state_snap;
pub mod state_nudge;
pub mod naming;
pub mod explorer;
pub mod state_laws;
pub mod laws;
pub mod laws_grid;
pub mod laws_editing;
