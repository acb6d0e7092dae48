//! Animated reveal of a text grid: every cell of an illustration is repeatedly
//! overwritten with randomly sampled characters whose candidate window narrows
//! geometrically until the target character is hit.
//!
//! The crate is organised around a small verified core:
//!
//! * [`illustration`] — the coordinate-to-character grid and its text parser;
//! * [`cell`] — the per-cell convergence state;
//! * [`sampler`] — panic-free computation of the sampling window and the
//!   random character draw;
//! * [`engine`] — the reveal engine that drives every cell to its target and
//!   reports observable events;
//! * [`laws`] — proved properties of the narrowing schedule.
//!
//! Rendering backends (a raw terminal, a frame buffer) are collaborators that
//! consume the engine's events; they are not part of this crate's logic.

pub mod cell;
pub mod engine;
pub mod illustration;
pub mod laws;
pub mod random;
pub mod sampler;
