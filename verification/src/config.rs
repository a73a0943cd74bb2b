//! Configuration of one game session: the guessing range, the optional cap on
//! attempts, and the cap on the length of a line of input.

use vstd::prelude::*;

verus! {

/// The parameters of a game session. The two stock rule sets differ only in
/// these values, so one configuration type covers both.
#[derive(Clone, Copy, Debug)]
pub struct GameConfig {
    /// Smallest admissible guess (inclusive).
    pub low: u32,
    /// Largest admissible guess (inclusive).
    pub high: u32,
    /// Cap on valid guesses; `None` means the session never runs out.
    pub max_attempts: Option<u32>,
    /// Longest trimmed input line (in bytes) that is still parsed.
    pub max_input_len: usize,
}

impl GameConfig {
    /// A configuration is well formed when the guessing range is nonempty.
    pub open spec fn wf(self) -> bool {
        self.low <= self.high
    }

    pub fn new(low: u32, high: u32, max_attempts: Option<u32>, max_input_len: usize) -> (r:
        GameConfig)
        requires
            low <= high,
        ensures
            r.wf(),
            r.low == low,
            r.high == high,
            r.max_attempts == max_attempts,
            r.max_input_len == max_input_len,
    {
        GameConfig { low, high, max_attempts, max_input_len }
    }

    /// The lenient rule set: guesses from 1 to 100, no cap on attempts.
    pub fn relaxed() -> (r: GameConfig)
        ensures
            r.wf(),
            r.low == 1,
            r.high == 100,
            r.max_attempts is None,
            r.max_input_len == 10,
    {
        GameConfig { low: 1, high: 100, max_attempts: None, max_input_len: 10 }
    }

    /// The defensive rule set: guesses from 1 to 10, at most ten attempts,
    /// input lines over ten bytes rejected before parsing.
    pub fn defensive() -> (r: GameConfig)
        ensures
            r.wf(),
            r.low == 1,
            r.high == 10,
            r.max_attempts == Some(10u32),
            r.max_input_len == 10,
    {
        GameConfig { low: 1, high: 10, max_attempts: Some(10), max_input_len: 10 }
    }
}

} // verus!
