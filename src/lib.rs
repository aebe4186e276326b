//! Decision logic of a ping-pong round-trip latency benchmark: two
//! participants exchange counter readings over bounded channels, and the
//! responder keeps the least round-trip delta. Each participant is a state
//! machine that asks its driver for one action at a time (read the counter,
//! send, receive, report) and is told what came of it.

pub mod delta;
pub mod exchange;
pub mod laws;
pub mod mode;
