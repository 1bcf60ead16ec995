//! A verified two-dimensional cellular automaton (a generalized Game of
//! Life) together with the shared simulation state and pacing logic that
//! let one thread step the automaton while others observe it.

pub mod array;
pub mod life;
pub mod state;
