//! A number-guessing session: a secret between 1 and 100, guesses read as
//! lines of text, hints, and the final report, with each step specified and
//! proved. Beside it stand a few small examples of enums, errors and tested
//! methods.

pub mod enums;
pub mod errors;
pub mod messages;
pub mod rounds;
pub mod session;
pub mod testing;
pub mod text;

pub use enums::defining_enums;
pub use errors::error_handling;
pub use messages::{prompt_line, startup_line};
pub use session::{Comparison, GuessInput, GuessingSession, RoundResult, compare, parse_guess};
pub use testing::{Rectangle, adder, writing_automated_tests};
