//! A rectangular outline that follows the pointer around a terminal.
//!
//! `geometry` computes where the outline goes, `render` turns it into the
//! terminal output that draws it, and `control` decides, event by event, what
//! the surrounding loop does next.
pub mod geometry;
pub mod render;
pub mod control;
