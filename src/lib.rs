//! Window orchestration for a desktop translation and OCR utility.
//!
//! The library decides, from plain snapshots of the desktop (displays,
//! cursor, live windows, stored settings), what the windowing layer must do
//! for each role. The host application performs those commands.
use vstd::prelude::*;

pub mod controllers;
pub mod display;
pub mod geometry;
pub mod pending;
pub mod registry;
pub mod role;

verus! {

} // verus!
