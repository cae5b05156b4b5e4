//! Arithmetic drills for first graders: exercise kinds, random tasks and the
//! state of an exercise session, with their contracts proved by Verus.

pub mod abacus;
pub mod clock;
pub mod random;
pub mod session;
pub mod task;
pub mod text;
