//! The discrete rules of a draggable rope: a chain of point masses joined by
//! springs and drawn as a ribbon.
//!
//! The arithmetic of the simulation is done by the caller. What is fixed here
//! is everything that is a matter of order and of choice: how a chain is
//! built, what a sub-step does and in which order, which spring acts on which
//! segment and when, how two segments of one chain are borrowed at once, what
//! is drawn and in which order, and which way a vector is turned to give the
//! ribbon its width.

pub mod chain;
pub mod drawing;
pub mod handedness;
pub mod pairing;
pub mod schedule;
