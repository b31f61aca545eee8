//! A minimal line-oriented read-eval-print loop.
//!
//! The library contains the pure logic of the loop: the fixed prompt, the
//! identity evaluation step, the handling of a line's trailing terminator,
//! the decision taken after each read, and a driver that computes the whole
//! output of a session from the lines an input stream would yield.
//!
//! The surrounding binary performs the actual stream reads and writes; every
//! decision and every byte of produced text comes from functions defined and
//! verified here.
//!
//! Error policy: an input-stream failure that is not a clean end-of-stream is
//! reported on the error stream as `error: <description>` and then treated
//! exactly like end-of-input, so the loop always terminates successfully.

pub mod repl;
pub mod session;
