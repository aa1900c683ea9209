//! A character-cell terminal rendering core.
//!
//! A caller describes a frame as positioned, styled text draw calls; the
//! library composites them into a double-buffered frame store, computes the
//! minimal set of changed cells since the previous frame, and turns that set
//! into an ordered sequence of terminal commands. Sub-cell pixel formats
//! (half blocks, quadrant blocks, braille dot matrices) pack several logical
//! dots into one cell and are merged bitmask-wise.

pub mod cell;
pub mod color;
pub mod compose;
pub mod draw;
pub mod emit;
pub mod frame;
pub mod metadata;
pub mod particle;
pub mod richtext;
pub mod style;
pub mod subcell;
