//! A whole session on a fixed secret and a fixed list of input lines, as one
//! mathematical function and one verified runner. The runner plays the lines
//! in order until the secret is guessed, the cap on attempts is reached, or
//! the lines run out.

use vstd::prelude::*;
use crate::config::GameConfig;
use crate::game::{Feedback, GameState, Outcome};
use crate::input::spec_validate;

verus! {

/// Whether a session under `config` is out of attempts after `attempts`
/// valid guesses.
pub open spec fn exhausted_at(config: GameConfig, attempts: nat) -> bool {
    match config.max_attempts {
        Some(m) => attempts >= m,
        None => false,
    }
}

/// The session as a mathematical function: with `attempts` valid guesses
/// already taken and `lines` still to come, what it ends in. `None` means the
/// lines ran out before the session ended.
pub open spec fn spec_play(
    config: GameConfig,
    secret: u32,
    lines: Seq<Seq<u8>>,
    attempts: nat,
) -> Option<Outcome>
    decreases lines.len(),
{
    if exhausted_at(config, attempts) {
        Some(Outcome::Exhausted(secret))
    } else if lines.len() == 0 {
        None
    } else {
        match spec_validate(config, lines[0]) {
            Ok(g) => if g == secret {
                Some(Outcome::Won((attempts + 1) as u32))
            } else {
                spec_play(config, secret, lines.drop_first(), attempts + 1)
            },
            Err(_) => spec_play(config, secret, lines.drop_first(), attempts),
        }
    }
}

/// How many of `lines` are valid guesses under `config`.
pub open spec fn valid_count(config: GameConfig, lines: Seq<Seq<u8>>) -> nat
    decreases lines.len(),
{
    if lines.len() == 0 {
        0
    } else {
        (if spec_validate(config, lines[0]) is Ok {
            1nat
        } else {
            0nat
        }) + valid_count(config, lines.drop_first())
    }
}

/// `lines` with every rejected line removed, order kept.
pub open spec fn valid_only(config: GameConfig, lines: Seq<Seq<u8>>) -> Seq<Seq<u8>>
    decreases lines.len(),
{
    if lines.len() == 0 {
        Seq::empty()
    } else if spec_validate(config, lines[0]) is Ok {
        seq![lines[0]] + valid_only(config, lines.drop_first())
    } else {
        valid_only(config, lines.drop_first())
    }
}

/// Play a whole session: the secret is fixed, the lines are fed to the
/// session in order, and the result is exactly what `spec_play` says of them.
pub fn play(config: GameConfig, secret: u32, lines: &Vec<Vec<u8>>) -> (r: Option<Outcome>)
    requires
        config.wf(),
        config.low <= secret <= config.high,
        lines@.len() <= u32::MAX,
    ensures
        r == spec_play(config, secret, lines.deep_view(), 0),
{
    let ghost all = lines.deep_view();
    let mut state = GameState::with_secret(config, secret);
    let mut i: usize = 0;
    proof {
        assert(all.skip(0) =~= all);
    }
    loop
        invariant
            state.wf(),
            state.config == config,
            state.secret == secret,
            0 <= i <= lines@.len(),
            lines@.len() <= u32::MAX,
            all == lines.deep_view(),
            state.attempts <= i,
            spec_play(config, secret, all, 0) == spec_play(
                config,
                secret,
                all.skip(i as int),
                state.attempts as nat,
            ),
        decreases lines@.len() - i,
    {
        if state.is_exhausted() {
            return Some(Outcome::Exhausted(secret));
        }
        if i == lines.len() {
            return None;
        }
        let line: &Vec<u8> = &lines[i];
        proof {
            assert(all[i as int] =~= line@);
            assert(all.skip(i as int)[0] == all[i as int]);
            assert(all.skip(i as int).drop_first() =~= all.skip(i as int + 1));
        }
        let fb = state.submit(Some(line.as_slice()));
        i = i + 1;
        if matches!(fb, Feedback::Correct) {
            return Some(Outcome::Won(state.attempts));
        }
    }
}

} // verus!
