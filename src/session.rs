//! The guessing session: a secret drawn once, a counter of attempts, and the
//! round that reads one line, compares the guess and reports.

use crate::text::{parse_decimal, parse_u32, trim, trimmed};
use rand::Rng;
use vstd::prelude::*;

verus! {

/// The smallest secret a session draws.
pub const LOWEST: u32 = 1;

/// The largest secret a session draws.
pub const HIGHEST: u32 = 100;

/// How a guess stands to the secret.
#[derive(Clone, Copy, Debug, PartialEq, Eq, Structural)]
pub enum Comparison {
    Less,
    Greater,
    Equal,
}

/// The comparison of `guess` with `secret`.
pub open spec fn compare_spec(guess: int, secret: int) -> Comparison {
    if guess < secret {
        Comparison::Less
    } else if guess > secret {
        Comparison::Greater
    } else {
        Comparison::Equal
    }
}

/// Compares a guess with the secret; any `u32` guess is accepted, in the
/// secret's range or not.
pub fn compare(guess: u32, secret: u32) -> (r: Comparison)
    ensures
        r == compare_spec(guess as int, secret as int),
        r == Comparison::Less <==> guess < secret,
        r == Comparison::Greater <==> guess > secret,
        r == Comparison::Equal <==> guess == secret,
{
    if guess < secret {
        Comparison::Less
    } else if guess > secret {
        Comparison::Greater
    } else {
        Comparison::Equal
    }
}

/// What one line of input gives: a guess, or the need to read another line.
#[derive(Clone, Copy, Debug, PartialEq, Eq, Structural)]
pub enum GuessInput {
    Guess(u32),
    RetryNeeded,
}

/// The reading of `line`: surrounding whitespace is dropped, and what is
/// left must be an unsigned decimal number that fits in a `u32`.
pub open spec fn read_guess(line: Seq<char>) -> GuessInput {
    match parse_u32(trimmed(line)) {
        Some(g) => GuessInput::Guess(g),
        None => GuessInput::RetryNeeded,
    }
}

/// Reads one line of input as a guess.
pub fn parse_guess(line: &str) -> (r: GuessInput)
    ensures
        r == read_guess(line@),
{
    match parse_decimal(trim(line)) {
        Some(g) => GuessInput::Guess(g),
        None => GuessInput::RetryNeeded,
    }
}

/// What a round reports.
#[derive(Clone, Copy, Debug, PartialEq, Eq, Structural)]
pub enum RoundResult {
    /// The line was not a guess: nothing changed, another line is needed.
    Retry,
    /// The guess was below the secret.
    TooSmall(u32),
    /// The guess was above the secret.
    TooBig(u32),
    /// The guess was the secret, found after `attempts` guesses.
    Won { attempts: u64, secret: u32 },
}

/// The abstract state of a session.
pub struct SessionState {
    pub secret: u32,
    pub attempts: nat,
    pub won: bool,
}

/// A session is well formed when its secret lies in the drawn range and its
/// counter is at least one.
pub open spec fn state_wf(st: SessionState) -> bool {
    LOWEST <= st.secret <= HIGHEST && st.attempts >= 1
}

/// The state in which a session with this secret starts.
pub open spec fn initial(secret: u32) -> SessionState {
    SessionState { secret, attempts: 1, won: false }
}

/// The report of the round that reads `line` in state `st`.
pub open spec fn round_result(st: SessionState, line: Seq<char>) -> RoundResult {
    match read_guess(line) {
        GuessInput::RetryNeeded => RoundResult::Retry,
        GuessInput::Guess(g) => match compare_spec(g as int, st.secret as int) {
            Comparison::Less => RoundResult::TooSmall(g),
            Comparison::Greater => RoundResult::TooBig(g),
            Comparison::Equal => RoundResult::Won { attempts: st.attempts as u64, secret: st.secret },
        },
    }
}

/// The state after the round that reads `line` in state `st`: a line that
/// is no guess changes nothing, a wrong guess adds one to the counter, the
/// right one ends the session. The secret never changes.
pub open spec fn next_state(st: SessionState, line: Seq<char>) -> SessionState {
    match read_guess(line) {
        GuessInput::RetryNeeded => st,
        GuessInput::Guess(g) => if g == st.secret {
            SessionState { won: true, ..st }
        } else {
            SessionState { attempts: st.attempts + 1, ..st }
        },
    }
}

/// Relies on rand's `thread_rng().gen_range(low..=high)`: a value between the
/// two bounds, both included. It panics only on an empty range.
#[verifier::external_body]
fn random_between(low: u32, high: u32) -> (r: u32)
    requires
        low <= high,
    ensures
        low <= r <= high,
{
    rand::thread_rng().gen_range(low..=high)
}

/// A number-guessing session.
pub struct GuessingSession {
    secret: u32,
    attempts: u64,
    won: bool,
}

impl View for GuessingSession {
    type V = SessionState;

    closed spec fn view(&self) -> SessionState {
        SessionState { secret: self.secret, attempts: self.attempts as nat, won: self.won }
    }
}

impl GuessingSession {
    /// Starts a session with a secret drawn at random between `LOWEST` and
    /// `HIGHEST`.
    pub fn start() -> (r: GuessingSession)
        ensures
            state_wf(r@),
            r@ == initial(r@.secret),
    {
        GuessingSession::new(random_between(LOWEST, HIGHEST))
    }

    /// Starts a session with the given secret.
    pub fn new(secret: u32) -> (r: GuessingSession)
        requires
            LOWEST <= secret <= HIGHEST,
        ensures
            state_wf(r@),
            r@ == initial(secret),
    {
        GuessingSession { secret, attempts: 1, won: false }
    }

    /// The secret.
    pub fn secret(&self) -> (r: u32)
        ensures
            r == self@.secret,
    {
        self.secret
    }

    /// The attempts counted so far.
    pub fn attempts(&self) -> (r: u64)
        ensures
            r == self@.attempts,
    {
        self.attempts
    }

    /// Whether the secret has been found.
    pub fn is_won(&self) -> (r: bool)
        ensures
            r == self@.won,
    {
        self.won
    }

    /// Plays one round on a line of input. A session that is won takes no
    /// more rounds.
    pub fn run_round(&mut self, line: &str) -> (r: RoundResult)
        requires
            state_wf(old(self)@),
            !old(self)@.won,
            old(self)@.attempts < u64::MAX,
        ensures
            state_wf(final(self)@),
            r == round_result(old(self)@, line@),
            final(self)@ == next_state(old(self)@, line@),
            final(self)@.secret == old(self)@.secret,
            r == RoundResult::Retry <==> read_guess(line@) == GuessInput::RetryNeeded,
            r == RoundResult::Retry ==> final(self)@ == old(self)@,
            final(self)@.won <==> r is Won,
    {
        match parse_guess(line) {
            GuessInput::RetryNeeded => RoundResult::Retry,
            GuessInput::Guess(g) => match compare(g, self.secret) {
                Comparison::Less => {
                    self.attempts = self.attempts + 1;
                    RoundResult::TooSmall(g)
                },
                Comparison::Greater => {
                    self.attempts = self.attempts + 1;
                    RoundResult::TooBig(g)
                },
                Comparison::Equal => {
                    self.won = true;
                    RoundResult::Won { attempts: self.attempts, secret: self.secret }
                },
            },
        }
    }
}

} // verus!
