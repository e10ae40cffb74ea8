//! Grid-based terminal interface for browsing and playing radio stations.
//!
//! The library lays labelled cells out in rows of a fixed width, tracks a
//! cursor that wraps around the drawable part of the grid, and decides what
//! is drawn and what a key press does. Reading keys, writing to the terminal
//! and talking to the station directory are left to the caller.

pub mod button;
pub mod grid;
pub mod label;
pub mod mode;
pub mod nav;
pub mod render;
pub mod search;
pub mod term;
pub mod ui;
