//! The lines of text a session writes.

use crate::session::RoundResult;
use crate::text::{decimal, decimal_text};
use vstd::prelude::*;

verus! {

/// The lines written after a round that reported `r`: the hint, then the
/// guess echoed, for a wrong guess; the count of attempts, then the secret,
/// for the right one; nothing for a line that was no guess.
pub open spec fn round_lines(r: RoundResult) -> Seq<Seq<char>> {
    match r {
        RoundResult::Retry => Seq::empty(),
        RoundResult::TooSmall(g) => seq!["Too small!"@, "You guessed: "@ + decimal(g as nat)],
        RoundResult::TooBig(g) => seq!["Too big!"@, "You guessed: "@ + decimal(g as nat)],
        RoundResult::Won { attempts, secret } => seq![
            "You guessed the number after "@ + decimal(attempts as nat) + " attempts!"@,
            "The secret number is: "@ + decimal(secret as nat),
        ],
    }
}

/// The line written when a session starts.
pub fn startup_line() -> (r: String)
    ensures
        r@ == "Guess the number!"@,
{
    String::from_str("Guess the number!")
}

/// The line written before each line of input is read.
pub fn prompt_line() -> (r: String)
    ensures
        r@ == "Please input your guess."@,
{
    String::from_str("Please input your guess.")
}

/// `prefix` followed by the decimal text of `n`.
fn with_number(prefix: &str, n: u64) -> (r: String)
    ensures
        r@ == prefix@ + decimal(n as nat),
{
    let mut s = String::from_str(prefix);
    let d = decimal_text(n);
    s.append(d.as_str());
    s
}

/// The guess echoed after a hint.
fn echo_line(g: u32) -> (r: String)
    ensures
        r@ == "You guessed: "@ + decimal(g as nat),
{
    with_number("You guessed: ", g as u64)
}

impl RoundResult {
    /// The lines to write after this round, in order.
    pub fn lines(&self) -> (r: Vec<String>)
        ensures
            r@.len() == round_lines(*self).len(),
            forall|k: int| 0 <= k < r@.len() ==> #[trigger] r@[k]@ == round_lines(*self)[k],
    {
        let mut out: Vec<String> = Vec::new();
        match *self {
            RoundResult::Retry => {},
            RoundResult::TooSmall(g) => {
                out.push(String::from_str("Too small!"));
                out.push(echo_line(g));
            },
            RoundResult::TooBig(g) => {
                out.push(String::from_str("Too big!"));
                out.push(echo_line(g));
            },
            RoundResult::Won { attempts, secret } => {
                let mut first = with_number("You guessed the number after ", attempts);
                first.append(" attempts!");
                out.push(first);
                out.push(with_number("The secret number is: ", secret as u64));
            },
        }
        out
    }
}

} // verus!
