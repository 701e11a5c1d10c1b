//! A verified action-planning and targeting engine for driving a
//! point-and-click application from gamepad state.
//!
//! The engine is a pure, synchronous, single-tick state transformer: each
//! frame the host feeds it button edge transitions and analog stick samples,
//! and the engine answers with the pointer-move and press/release commands
//! to perform. All geometry is carried out in fixed-point integer pixels;
//! the host converts raw stick readings into scaled unit vectors before
//! handing them in.

pub mod engine;
pub mod geometry;
pub mod settings;
