//! The decision logic of the WhipClaude overlay: when a whip crack counts,
//! how cracks build combos, when mercy mode starts and ends, what each frame
//! asks the window to do, which phrase gets typed, and how the command line
//! is read. Time is a count of nanoseconds on a monotonic clock.

mod channel;
mod chance;

pub mod timing;
pub mod crack;
pub mod phrases;
pub mod audio;
pub mod keyboard;
pub mod session;
pub mod cli;
