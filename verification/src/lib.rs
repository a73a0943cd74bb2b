//! A number-guessing game, verified: a secret drawn from a closed range, an
//! attempt counter that only valid guesses advance, and input validation that
//! trims, caps, parses and range-checks each line before it may count. The
//! laws module proves the session-wide guarantees: rejected lines cost
//! nothing, the first correct guess wins with the exact attempt count, and a
//! capped session without a correct guess ends exhausted, revealing the
//! secret.

pub mod config;
pub mod game;
pub mod input;
pub mod laws;
pub mod session;
