//! Sessions over many rounds: what a sequence of input lines leads to.

use crate::session::{
    HIGHEST, LOWEST, initial, next_state, read_guess, round_result, state_wf, GuessInput, RoundResult, SessionState,
};
use crate::text::{decimal, lemma_parse_decimal_round_trip};
use vstd::prelude::*;

verus! {

/// The state reached from `st` by reading `lines` in order; once the session
/// is won, the lines that follow are not read.
pub open spec fn play(st: SessionState, lines: Seq<Seq<char>>) -> SessionState
    decreases lines.len(),
{
    if lines.len() == 0 || st.won {
        st
    } else {
        play(next_state(st, lines[0]), lines.drop_first())
    }
}

/// How many of `lines` read as a guess.
pub open spec fn count_guesses(lines: Seq<Seq<char>>) -> nat
    decreases lines.len(),
{
    if lines.len() == 0 {
        0
    } else {
        count_guesses(lines.drop_last()) + if read_guess(lines.last()) is Guess {
            1nat
        } else {
            0nat
        }
    }
}

/// Reading one more line after `lines` is one more round, unless the
/// session was already won.
proof fn lemma_play_push(st: SessionState, lines: Seq<Seq<char>>, line: Seq<char>)
    ensures
        play(st, lines.push(line)) == if play(st, lines).won {
            play(st, lines)
        } else {
            next_state(play(st, lines), line)
        },
    decreases lines.len(),
{
    if lines.len() > 0 && !st.won {
        assert(lines.push(line).drop_first() =~= lines.drop_first().push(line));
        assert(lines.push(line)[0] == lines[0]);
        lemma_play_push(next_state(st, lines[0]), lines.drop_first(), line);
    } else if lines.len() == 0 {
        assert(lines.push(line).drop_first() =~= Seq::<Seq<char>>::empty());
        assert(play(next_state(st, line), Seq::<Seq<char>>::empty()) == next_state(st, line));
    }
}

/// The counter starts at one and grows by exactly one with each line that
/// reads as a guess and misses; lines that are no guess leave the counter
/// and the secret alone. So while the session runs, its counter is one more
/// than the number of guesses read, and the round that finds the secret
/// reports as many attempts as guesses were read, that one included.
pub proof fn lemma_attempts_counted(secret: u32, lines: Seq<Seq<char>>, line: Seq<char>)
    requires
        state_wf(initial(secret)),
    ensures
        play(initial(secret), lines).secret == secret,
        !play(initial(secret), lines).won ==> play(initial(secret), lines).attempts == 1
            + count_guesses(lines),
        !play(initial(secret), lines).won && round_result(play(initial(secret), lines), line) is Won
            ==> round_result(play(initial(secret), lines), line) == (RoundResult::Won {
            attempts: count_guesses(lines.push(line)) as u64,
            secret,
        }),
    decreases lines.len(),
{
    let before = play(initial(secret), lines);
    if lines.len() > 0 {
        let prefix = lines.drop_last();
        assert(prefix.push(lines.last()) =~= lines);
        lemma_attempts_counted(secret, prefix, lines.last());
        lemma_play_push(initial(secret), prefix, lines.last());
    }
    assert(lines.push(line).drop_last() =~= lines);
}

/// The guesses of a player who bisects `lo..=hi` looking for `secret`: the
/// middle of the range (rounded down) first, then the bisection of the half
/// that still holds the secret, until the secret is guessed.
pub open spec fn bisection(secret: int, lo: int, hi: int) -> Seq<int>
    decreases hi - lo + 1,
{
    if lo > hi {
        Seq::empty()
    } else {
        let mid = (lo + hi) / 2;
        if mid == secret {
            seq![mid]
        } else if mid < secret {
            seq![mid] + bisection(secret, mid + 1, hi)
        } else {
            seq![mid] + bisection(secret, lo, mid - 1)
        }
    }
}

/// The guesses `gs` written as lines of input, in decimal.
pub open spec fn guess_lines(gs: Seq<int>) -> Seq<Seq<char>> {
    gs.map_values(|g: int| decimal(g as nat))
}

/// How many times `n` can be halved, rounding down, before it reaches zero.
spec fn halvings(n: nat) -> nat
    decreases n,
{
    if n == 0 {
        0
    } else {
        1 + halvings(n / 2)
    }
}

proof fn lemma_halvings_monotone(a: nat, b: nat)
    requires
        a <= b,
    ensures
        halvings(a) <= halvings(b),
    decreases b,
{
    if a > 0 {
        lemma_halvings_monotone(a / 2, b / 2);
    }
}

/// Bisection from any running state over a range that holds the secret wins,
/// on its last guess, after at most `halvings` of the range's size guesses.
proof fn lemma_bisection_from(st: SessionState, lo: int, hi: int)
    requires
        !st.won,
        0 <= lo <= st.secret <= hi <= u32::MAX,
    ensures
        bisection(st.secret as int, lo, hi).len() >= 1,
        bisection(st.secret as int, lo, hi).len() <= halvings((hi - lo + 1) as nat),
        play(st, guess_lines(bisection(st.secret as int, lo, hi))).won,
        !play(st, guess_lines(bisection(st.secret as int, lo, hi)).drop_last()).won,
    decreases hi - lo + 1,
{
    let s = st.secret as int;
    let n = (hi - lo + 1) as nat;
    let mid = (lo + hi) / 2;
    let gs = bisection(s, lo, hi);
    let lines = guess_lines(gs);
    let line = decimal(mid as nat);
    lemma_parse_decimal_round_trip(mid as u32);
    assert(read_guess(line) == GuessInput::Guess(mid as u32));
    let after = next_state(st, line);
    assert(lines[0] == line);
    if mid == s {
        assert(lines.drop_first() =~= Seq::<Seq<char>>::empty());
        assert(lines.drop_last() =~= Seq::<Seq<char>>::empty());
        assert(play(after, Seq::<Seq<char>>::empty()) == after);
    } else {
        let rest = if mid < s {
            bisection(s, mid + 1, hi)
        } else {
            bisection(s, lo, mid - 1)
        };
        assert(gs == seq![mid] + rest);
        if mid < s {
            lemma_bisection_from(after, mid + 1, hi);
            lemma_halvings_monotone((hi - mid) as nat, n / 2);
        } else {
            lemma_bisection_from(after, lo, mid - 1);
            lemma_halvings_monotone((mid - lo) as nat, n / 2);
        }
        assert(lines.drop_first() =~= guess_lines(rest));
        assert(lines.drop_last().drop_first() =~= guess_lines(rest).drop_last());
        assert(lines.drop_last()[0] == line);
    }
}

/// A player who bisects `LOWEST..=HIGHEST`, always guessing the middle of
/// what is left, finds any secret in at most seven rounds, and the session
/// is won on the last of those guesses and not before.
pub proof fn lemma_bisection_wins(secret: u32)
    requires
        LOWEST <= secret <= HIGHEST,
    ensures
        bisection(secret as int, LOWEST as int, HIGHEST as int).len() <= 7,
        play(initial(secret), guess_lines(bisection(secret as int, LOWEST as int, HIGHEST as int))).won,
        !play(
            initial(secret),
            guess_lines(bisection(secret as int, LOWEST as int, HIGHEST as int)).drop_last(),
        ).won,
{
    lemma_bisection_from(initial(secret), LOWEST as int, HIGHEST as int);
    assert(halvings(0) == 0);
    assert(halvings(1) == 1);
    assert(halvings(3) == 2);
    assert(halvings(6) == 3);
    assert(halvings(12) == 4);
    assert(halvings(25) == 5);
    assert(halvings(50) == 6);
    assert(halvings(100) == 7);
}

} // verus!
