//! Core of a speedcubing practice timer: scramble generation, the
//! press-and-hold timer state machine, and the rolling-average record.

pub mod digits;
pub mod moves;
pub mod random;
pub mod record;
pub mod scrambler;
pub mod session;
pub mod timer;
