//! Stopwatches for the terminal that can be paused, rewound and carried
//! across restarts.
//!
//! - [`stopwatch`]: the stopwatch itself, which gathers the time of its runs.
//! - [`stack`]: a stopwatch with a bounded history to step back and forward
//!   through.
//! - [`snapshot`]: what is written down of a stopwatch, and how a running
//!   stopwatch is taken up again by the wall clock.
//! - [`state`]: the board of stacks, and what the commands do to it.
//! - [`command`]: the keys and the commands they are bound to.
//! - [`render`]: a reading as text.
//! - [`clock`]: what is taken on trust of `std::time` and of the wall clock.

pub mod clock;
pub mod command;
pub mod render;
pub mod snapshot;
pub mod stack;
pub mod state;
pub mod stopwatch;
