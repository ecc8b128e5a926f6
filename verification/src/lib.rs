//! Register model, wire framing and protocol decisions for the MLX90640 and
//! MLX90641 thermal cameras.
//!
//! The camera exposes two 16-bit configuration registers over I²C: the status
//! register and the first control register. This crate models both as plain
//! words with verified field accessors, frames register reads and writes as
//! bytes, and states the driver's decisions (when to write a register, how to
//! synchronise with a frame, when an image is ready) as step functions from a
//! state and an observed bus event to the next state and bus action.

pub mod register;
pub mod wire;
pub mod camera;
pub mod driver;
pub mod protocol;
