//! A one-dimensional slider widget: pure quad geometry generation, the
//! pointer-driven state machine that drags the slider head along its track,
//! and the dirty-bit synchronizer that tells a renderer when to re-upload.

pub mod geometry;
pub mod slider;
