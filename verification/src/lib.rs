//! The rules behind a procedurally generated planet: laying out and encoding
//! its elevation field, stepping the task that generates it off the main
//! loop, holding the orbit camera's zoom within its limits, and driving the
//! cross-fade that blends a new surface in.
//!
//! Nothing here computes in floating point. Numbers that the host holds as
//! single-precision floats are exchanged as their bit patterns; see
//! [`binary32`].
pub mod binary32;
pub mod blend;
pub mod generation;
pub mod harmonics;
pub mod orbit;
pub mod task;
