//! Per-frame movement intent for a keyboard-driven kinematic character.
//!
//! Held keys become a movement intent with one step per axis; the intent is
//! normalised (so that diagonal motion is no faster than axial motion) and
//! scaled by a fixed speed and the frame's elapsed time. All arithmetic is
//! exact: a displacement is kept as integer components together with the
//! squared length of the intent it is to be divided by.
pub mod intent;
pub mod motion;
