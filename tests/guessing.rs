use guessing_game::{
    compare, parse_guess, prompt_line, startup_line, Comparison, GuessInput, GuessingSession,
    RoundResult,
};

fn play_lines(session: &mut GuessingSession, inputs: &[&str]) -> Vec<String> {
    let mut out = Vec::new();
    for line in inputs {
        let r = session.run_round(line);
        out.extend(r.lines());
        if session.is_won() {
            break;
        }
    }
    out
}

#[test]
fn scenario_secret_42() {
    let mut s = GuessingSession::new(42);
    let out = play_lines(&mut s, &["50", "25", "42"]);
    assert_eq!(
        out,
        vec![
            "Too big!",
            "You guessed: 50",
            "Too small!",
            "You guessed: 25",
            "You guessed the number after 3 attempts!",
            "The secret number is: 42",
        ]
    );
    assert!(s.is_won());
    assert_eq!(s.attempts(), 3);
}

#[test]
fn scenario_secret_7_with_bad_line() {
    let mut s = GuessingSession::new(7);
    let r = s.run_round("abc");
    assert_eq!(r, RoundResult::Retry);
    assert!(r.lines().is_empty());
    assert_eq!(s.attempts(), 1);
    assert!(!s.is_won());
    let r = s.run_round("7");
    assert_eq!(r, RoundResult::Won { attempts: 1, secret: 7 });
    assert_eq!(
        r.lines(),
        vec!["You guessed the number after 1 attempts!", "The secret number is: 7"]
    );
}

#[test]
fn fixed_lines() {
    assert_eq!(startup_line(), "Guess the number!");
    assert_eq!(prompt_line(), "Please input your guess.");
}

#[test]
fn compare_outside_range() {
    assert_eq!(compare(0, 1), Comparison::Less);
    assert_eq!(compare(101, 100), Comparison::Greater);
    assert_eq!(compare(u32::MAX, 50), Comparison::Greater);
    assert_eq!(compare(50, 50), Comparison::Equal);
}

#[test]
fn out_of_range_guess_is_a_hint() {
    let mut s = GuessingSession::new(1);
    assert_eq!(s.run_round("0\n"), RoundResult::TooSmall(0));
    assert_eq!(s.run_round("500"), RoundResult::TooBig(500));
    assert_eq!(s.attempts(), 3);
    assert_eq!(s.secret(), 1);
}

#[test]
fn parse_guess_trims_then_reads() {
    assert_eq!(parse_guess(" 42 \n"), GuessInput::Guess(42));
    assert_eq!(parse_guess("\r\n"), GuessInput::RetryNeeded);
    assert_eq!(parse_guess("-"), GuessInput::RetryNeeded);
    assert_eq!(parse_guess("-3"), GuessInput::RetryNeeded);
    assert_eq!(parse_guess("4 2"), GuessInput::RetryNeeded);
}

#[test]
fn malformed_lines_change_nothing() {
    let mut s = GuessingSession::new(60);
    s.run_round("30");
    for line in ["", "\n", "abc", "-", "-12", "+", "99999999999"] {
        assert_eq!(s.run_round(line), RoundResult::Retry);
        assert_eq!(s.attempts(), 2);
        assert_eq!(s.secret(), 60);
        assert!(!s.is_won());
    }
}

#[test]
fn attempts_count_valid_guesses() {
    let mut s = GuessingSession::new(10);
    assert_eq!(s.attempts(), 1);
    let lines = ["x", "3", "", "99", "y", "11", "10"];
    let mut valid = 0;
    let mut last = RoundResult::Retry;
    for line in lines {
        last = s.run_round(line);
        if last != RoundResult::Retry {
            valid += 1;
        }
    }
    assert_eq!(last, RoundResult::Won { attempts: valid, secret: 10 });
    assert_eq!(valid, 4);
}

#[test]
fn bisection_wins_within_seven_rounds() {
    for secret in 1u32..=100 {
        let mut s = GuessingSession::new(secret);
        let (mut lo, mut hi) = (1u32, 100u32);
        let mut rounds = 0;
        loop {
            let mid = (lo + hi) / 2;
            rounds += 1;
            match s.run_round(&format!("{}\n", mid)) {
                RoundResult::TooSmall(g) => lo = g + 1,
                RoundResult::TooBig(g) => hi = g - 1,
                RoundResult::Won { attempts, secret: found } => {
                    assert_eq!(found, secret);
                    assert_eq!(attempts, rounds);
                    break;
                }
                RoundResult::Retry => panic!("a number was read as no guess"),
            }
        }
        assert!(rounds <= 7, "secret {} took {} rounds", secret, rounds);
    }
}

#[test]
fn start_draws_in_range() {
    let mut seen = Vec::new();
    for _ in 0..200 {
        let s = GuessingSession::start();
        assert!((1..=100).contains(&s.secret()));
        assert_eq!(s.attempts(), 1);
        assert!(!s.is_won());
        if !seen.contains(&s.secret()) {
            seen.push(s.secret());
        }
    }
    assert!(seen.len() > 1);
}
