//! An interactive 2D authoring tool's core: place rectangular objects into
//! a scene in editor mode, then hand a deep copy of that scene to a
//! deterministic fixed-timestep physics simulation in game mode.
//!
//! Everything here is plain data and verified logic.  World coordinates are
//! fixed-point micro-units (`physics::MICROS_PER_UNIT` per world unit), so
//! the integrator's arithmetic, the collision report, the editor's state
//! machine and the fixed-timestep accumulator all carry exact contracts.
//! Rendering, input polling and the wall clock stay outside, behind the
//! input snapshot and the step results of `control::ControlLoop`.

pub mod math;
pub mod physics;
pub mod scene;
pub mod editor;
pub mod game;
pub mod control;
