//! The game session itself: a secret within the configured range, an attempt
//! counter that only valid guesses advance, and the feedback each submitted
//! line earns. A session ends when the secret is guessed or, under a capped
//! configuration, when the valid guesses run out.

use vstd::prelude::*;
use rand::Rng;
use crate::config::GameConfig;
use crate::input::{InputError, spec_validate, validate_guess};

verus! {

/// Terminal result of a session.
#[derive(Clone, Copy, Debug, PartialEq, Eq, Structural)]
pub enum Outcome {
    /// The secret was guessed; holds the count of valid guesses used.
    Won(u32),
    /// The cap on attempts was reached; holds the secret, revealed at the end.
    Exhausted(u32),
}

/// What one submitted line earned the player.
#[derive(Clone, Copy, Debug, PartialEq, Eq, Structural)]
pub enum Feedback {
    /// The line was turned away; the attempt counter did not move.
    Rejected(InputError),
    /// A valid guess below the secret.
    TooSmall,
    /// A valid guess above the secret.
    TooBig,
    /// The winning guess.
    Correct,
}

/// Relies on rand's `Rng::gen_range` on `thread_rng`, sampling from the
/// inclusive range `low..=high`: the sampled value lies within that range.
/// `gen_range` panics on an empty range, which `requires` rules out.
#[verifier::external_body]
fn random_in_range(low: u32, high: u32) -> (r: u32)
    requires
        low <= high,
    ensures
        low <= r && r <= high,
{
    rand::thread_rng().gen_range(low..=high)
}

/// One running session: the fixed configuration and secret, and the count of
/// valid guesses taken so far.
#[derive(Clone, Copy, Debug)]
pub struct GameState {
    pub config: GameConfig,
    pub secret: u32,
    pub attempts: u32,
}

impl GameState {
    /// Session invariant: the configuration is well formed, the secret lies
    /// within the guessing range, and the attempt counter never passes the
    /// cap.
    pub open spec fn wf(self) -> bool {
        &&& self.config.wf()
        &&& self.config.low <= self.secret <= self.config.high
        &&& (self.config.max_attempts matches Some(m) ==> self.attempts <= m)
    }

    /// Whether the session is over because the cap on attempts was reached.
    pub open spec fn spec_exhausted(self) -> bool {
        match self.config.max_attempts {
            Some(m) => self.attempts >= m,
            None => false,
        }
    }

    pub fn is_exhausted(&self) -> (r: bool)
        ensures
            r == self.spec_exhausted(),
    {
        match self.config.max_attempts {
            Some(m) => self.attempts >= m,
            None => false,
        }
    }

    /// Runtime check of the session invariant, for callers outside verified
    /// code that must establish it before submitting a line.
    pub fn invariant_holds(&self) -> (r: bool)
        ensures
            r == self.wf(),
    {
        self.config.low <= self.config.high && self.config.low <= self.secret
            && self.secret <= self.config.high && (match self.config.max_attempts {
            Some(m) => self.attempts <= m,
            None => true,
        })
    }

    /// Start a session whose secret is already fixed.
    pub fn with_secret(config: GameConfig, secret: u32) -> (r: GameState)
        requires
            config.wf(),
            config.low <= secret <= config.high,
        ensures
            r.wf(),
            r.config == config,
            r.secret == secret,
            r.attempts == 0,
    {
        GameState { config, secret, attempts: 0 }
    }

    /// Start a session with a freshly drawn secret. Nothing more than the
    /// session invariant can be promised of the secret: it is random.
    pub fn new_random(config: GameConfig) -> (r: GameState)
        requires
            config.wf(),
        ensures
            r.wf(),
            r.config == config,
            r.attempts == 0,
    {
        let secret = random_in_range(config.low, config.high);
        GameState { config, secret, attempts: 0 }
    }

    /// Feed one read line to the session; `None` stands for a line that could
    /// not be read at all. A rejected line — unreadable, too long, not a
    /// number, or out of range — leaves the attempt counter untouched; a
    /// valid guess advances it by one and is compared against the secret.
    pub fn submit(&mut self, line: Option<&[u8]>) -> (r: Feedback)
        requires
            old(self).wf(),
            !old(self).spec_exhausted(),
            old(self).attempts < u32::MAX,
        ensures
            final(self).wf(),
            final(self).config == old(self).config,
            final(self).secret == old(self).secret,
            match line {
                None => r == Feedback::Rejected(InputError::ReadFailed) && final(self).attempts
                    == old(self).attempts,
                Some(raw) => match spec_validate(old(self).config, raw@) {
                    Err(e) => r == Feedback::Rejected(e) && final(self).attempts == old(
                        self,
                    ).attempts,
                    Ok(g) => final(self).attempts == old(self).attempts + 1 && r == (
                    if g < old(self).secret {
                        Feedback::TooSmall
                    } else if g > old(self).secret {
                        Feedback::TooBig
                    } else {
                        Feedback::Correct
                    }),
                },
            },
    {
        match line {
            None => Feedback::Rejected(InputError::ReadFailed),
            Some(raw) => match validate_guess(&self.config, raw) {
                Err(e) => Feedback::Rejected(e),
                Ok(g) => {
                    self.attempts = self.attempts + 1;
                    if g < self.secret {
                        Feedback::TooSmall
                    } else if g > self.secret {
                        Feedback::TooBig
                    } else {
                        Feedback::Correct
                    }
                },
            },
        }
    }
}

} // verus!
