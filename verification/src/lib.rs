//! Decision core of a tiling window manager.
//!
//! The library consumes discrete display events (window lifecycle, pointer
//! motion, key and mouse chords, geometry changes), keeps an in-memory model
//! of screens, workspaces, tags, windows and focus, and records its intents as
//! an ordered queue of display actions that an external display-server
//! adapter executes.  The core itself never talks to the display protocol:
//! it only decides what should happen.

pub mod command;
pub mod config;
pub mod display_action;
pub mod display_event;
pub mod focus_manager;
pub mod manager;
pub mod models;
pub mod state;
