//! The session-wide guarantees, proved once and for all over `spec_play`:
//! rejected lines never count, the first correct guess wins with the attempt
//! counter equal to the valid guesses taken, and a session that never sees a
//! correct guess within its cap ends exhausted with the true secret revealed.

use vstd::prelude::*;
use crate::config::GameConfig;
use crate::game::Outcome;
use crate::input::{spec_validate, InputError};
use crate::session::{exhausted_at, spec_play, valid_count, valid_only};

verus! {

/// The valid guesses among `lines` are exactly as many as `valid_only` keeps.
pub proof fn lemma_valid_only_len(config: GameConfig, lines: Seq<Seq<u8>>)
    ensures
        valid_only(config, lines).len() == valid_count(config, lines),
    decreases lines.len(),
{
    if lines.len() > 0 {
        lemma_valid_only_len(config, lines.drop_first());
    }
}

/// Rejected lines never move the session: a play of `lines` ends exactly as a
/// play of the valid lines alone, with the same attempt count in a win.
pub proof fn lemma_rejected_lines_do_not_count(
    config: GameConfig,
    secret: u32,
    lines: Seq<Seq<u8>>,
    attempts: nat,
)
    ensures
        spec_play(config, secret, lines, attempts) == spec_play(
            config,
            secret,
            valid_only(config, lines),
            attempts,
        ),
    decreases lines.len(),
{
    if exhausted_at(config, attempts) {
    } else if lines.len() == 0 {
    } else {
        let rest = lines.drop_first();
        match spec_validate(config, lines[0]) {
            Ok(g) => {
                let vo = valid_only(config, lines);
                assert(vo[0] == lines[0]);
                assert(vo.drop_first() =~= valid_only(config, rest));
                if g == secret {
                } else {
                    lemma_rejected_lines_do_not_count(config, secret, rest, attempts + 1);
                }
            },
            Err(_) => {
                lemma_rejected_lines_do_not_count(config, secret, rest, attempts);
            },
        }
    }
}

/// The session ends in a win on the first line that validates to the secret,
/// and the attempt counter lands exactly on the count of valid guesses taken
/// up to and including that line: rejected lines in between cost nothing.
pub proof fn lemma_first_correct_guess_wins(
    config: GameConfig,
    secret: u32,
    lines: Seq<Seq<u8>>,
    attempts: nat,
    i: int,
)
    requires
        0 <= i < lines.len(),
        spec_validate(config, lines[i]) == Ok::<u32, InputError>(secret),
        forall|j: int| 0 <= j < i ==> spec_validate(config, lines[j]) != Ok::<u32, InputError>(
            secret,
        ),
        config.max_attempts matches Some(m) ==> attempts + valid_count(config, lines.take(i)) < m,
    ensures
        spec_play(config, secret, lines, attempts) == Some(
            Outcome::Won(((attempts + valid_count(config, lines.take(i)) + 1) as u32)),
        ),
    decreases i,
{
    if i == 0 {
        assert(lines.take(0) =~= Seq::<Seq<u8>>::empty());
    } else {
        let rest = lines.drop_first();
        let front = lines.take(i);
        assert(front[0] == lines[0]);
        assert(front.drop_first() =~= rest.take(i - 1));
        assert(rest[i - 1] == lines[i]);
        assert(forall|j: int|
            0 <= j < i - 1 ==> spec_validate(config, rest[j]) != Ok::<u32, InputError>(secret));
        match spec_validate(config, lines[0]) {
            Ok(g) => {
                assert(g != secret);
                lemma_first_correct_guess_wins(config, secret, rest, attempts + 1, i - 1);
            },
            Err(_) => {
                lemma_first_correct_guess_wins(config, secret, rest, attempts, i - 1);
            },
        }
    }
}

/// Under a capped configuration, when the lines hold at least as many valid
/// guesses as the cap leaves and none of the first so many valid guesses is
/// the secret, the session ends exhausted and reveals the true secret.
pub proof fn lemma_no_correct_guess_exhausts(
    config: GameConfig,
    secret: u32,
    lines: Seq<Seq<u8>>,
    attempts: nat,
    m: u32,
)
    requires
        config.max_attempts == Some(m),
        attempts <= m,
        valid_count(config, lines) >= m - attempts,
        forall|j: int|
            0 <= j < m - attempts ==> spec_validate(config, valid_only(config, lines)[j])
                != Ok::<u32, InputError>(secret),
    ensures
        spec_play(config, secret, lines, attempts) == Some(Outcome::Exhausted(secret)),
    decreases lines.len(),
{
    if attempts >= m {
    } else {
        assert(valid_count(config, lines) >= 1);
        assert(lines.len() > 0);
        let rest = lines.drop_first();
        let vo = valid_only(config, lines);
        lemma_valid_only_len(config, lines);
        match spec_validate(config, lines[0]) {
            Ok(g) => {
                assert(vo[0] == lines[0]);
                assert(spec_validate(config, vo[0]) != Ok::<u32, InputError>(secret));
                assert(g != secret);
                assert(vo.drop_first() =~= valid_only(config, rest));
                assert forall|j: int| 0 <= j < m - (attempts + 1) implies spec_validate(
                    config,
                    valid_only(config, rest)[j],
                ) != Ok::<u32, InputError>(secret) by {
                    assert(valid_only(config, rest)[j] == vo.drop_first()[j]);
                    assert(vo.drop_first()[j] == vo[j + 1]);
                    assert(spec_validate(config, vo[j + 1]) != Ok::<u32, InputError>(secret));
                }
                lemma_no_correct_guess_exhausts(config, secret, rest, attempts + 1, m);
            },
            Err(_) => {
                assert(valid_only(config, rest) == vo);
                lemma_no_correct_guess_exhausts(config, secret, rest, attempts, m);
            },
        }
    }
}

} // verus!
