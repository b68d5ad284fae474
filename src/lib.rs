//! Screen colour sampling core: locating the display under a desktop point,
//! choosing a bounded capture rectangle on it, turning captured pixels into a
//! sample grid, and the live / frozen picker state machine with its history.
pub mod color;
pub mod geometry;
pub mod history;
pub mod picker;
pub mod region;
