//! Recognition of single-finger gestures on a thin strip at the top edge of a
//! touch screen.
//!
//! The crate holds the decision logic of an edge-gesture helper: a surface
//! lifecycle controller that adopts sizes proposed by the compositor and asks
//! for its pixel buffer exactly once, a gesture recognizer that classifies
//! the motion of a touch contact into slides and pulls, and a dispatcher that
//! maps each recognized gesture to the argument list of an external command.
//! Touch coordinates are carried as fixed-point integers in tenths of a
//! pixel, so every threshold of the classification rules is exact.

pub mod border;
pub mod dispatch;
pub mod gesture;
pub mod surface;
