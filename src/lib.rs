//! One recurring alarm driving one output line, with a wrapping firing
//! counter shared between the interrupt handler and the main context.
//!
//! The hardware capabilities are modelled by plain values so that the
//! handler's transition, the shared slots and the observation loop can be
//! stated and proved independently of the registers.
pub mod board;
pub mod exclusion;
pub mod handler;
pub mod laws;
pub mod observe;
pub mod slot;
