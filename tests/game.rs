use rust_shell::game::{
    abort_message, compare_guess, run_session, ErrorPolicy, Outcome, Phase, Response, Session,
};
use rust_shell::parse::parse_guess;

fn lines(items: &[&str]) -> Vec<String> {
    items.iter().map(|s| s.to_string()).collect()
}

fn messages(responses: &[Response]) -> Vec<String> {
    responses
        .iter()
        .map(|r| match r {
            Response::Compared { outcome, .. } => outcome.message(),
            Response::Aborted => abort_message(),
            Response::Skipped => String::new(),
        })
        .collect()
}

#[test]
fn parse_trims_and_reads_digits() {
    assert_eq!(parse_guess("42"), Some(42));
    assert_eq!(parse_guess("  7\n"), Some(7));
    assert_eq!(parse_guess("\t+15 \r\n"), Some(15));
    assert_eq!(parse_guess("0"), Some(0));
    assert_eq!(parse_guess("4294967295"), Some(u32::MAX));
}

#[test]
fn parse_rejects_malformed() {
    assert_eq!(parse_guess(""), None);
    assert_eq!(parse_guess("   \n"), None);
    assert_eq!(parse_guess("abc"), None);
    assert_eq!(parse_guess("4 2"), None);
    assert_eq!(parse_guess("-3"), None);
    assert_eq!(parse_guess("+"), None);
    assert_eq!(parse_guess("4294967296"), None);
    assert_eq!(parse_guess("99999999999"), None);
}

#[test]
fn parse_agrees_with_std() {
    for s in ["12", " 12 ", "\u{3000}8\u{a0}", "1x", "007", "+0", "", "65536"] {
        assert_eq!(parse_guess(s), s.trim().parse::<u32>().ok(), "{:?}", s);
    }
}

#[test]
fn compare_all_small_values() {
    for s in 1..10u32 {
        for g in 0..12u32 {
            let o = compare_guess(g, s);
            if g < s {
                assert_eq!(o, Outcome::TooSmall);
            } else if g > s {
                assert_eq!(o, Outcome::TooBig);
            } else {
                assert_eq!(o, Outcome::Win);
            }
        }
    }
}

#[test]
fn outcome_messages() {
    assert_eq!(Outcome::TooSmall.message(), "Too small!");
    assert_eq!(Outcome::TooBig.message(), "Too big!");
    assert_eq!(Outcome::Win.message(), "You win!");
    assert_eq!(abort_message(), "Please type a number!");
}

#[test]
fn win_ends_the_session() {
    let mut s = Session::new(6, ErrorPolicy::SkipAndRetry);
    assert_eq!(
        s.submit("3"),
        Response::Compared { outcome: Outcome::TooSmall, guess: 3 }
    );
    assert!(!s.is_over());
    assert_eq!(s.submit("8"), Response::Compared { outcome: Outcome::TooBig, guess: 8 });
    assert!(!s.is_over());
    assert_eq!(s.submit("6"), Response::Compared { outcome: Outcome::Win, guess: 6 });
    assert!(s.is_over());
    assert_eq!(s.phase(), Phase::Won);
    let r = run_session(6, ErrorPolicy::SkipAndRetry, &lines(&["6", "1", "2"]));
    assert_eq!(r, vec![Response::Compared { outcome: Outcome::Win, guess: 6 }]);
}

#[test]
fn secret_stays_fixed() {
    let mut s = Session::new(3, ErrorPolicy::SkipAndRetry);
    for line in ["1", "x", "9", "2", ""] {
        s.submit(line);
        assert_eq!(s.secret(), 3);
        assert_eq!(s.policy(), ErrorPolicy::SkipAndRetry);
    }
    let r = run_session(3, ErrorPolicy::SkipAndRetry, &lines(&["5", "5", "1", "1"]));
    assert_eq!(
        r,
        vec![
            Response::Compared { outcome: Outcome::TooBig, guess: 5 },
            Response::Compared { outcome: Outcome::TooBig, guess: 5 },
            Response::Compared { outcome: Outcome::TooSmall, guess: 1 },
            Response::Compared { outcome: Outcome::TooSmall, guess: 1 },
        ]
    );
}

#[test]
fn started_session_draws_a_secret_in_range() {
    let mut seen = std::collections::BTreeSet::new();
    for _ in 0..200 {
        let s = Session::start(ErrorPolicy::Abort);
        seen.insert(s.secret());
        assert!((1..10).contains(&s.secret()));
        assert_eq!(s.policy(), ErrorPolicy::Abort);
        assert_eq!(s.phase(), Phase::AwaitingInput);
    }
    assert!(seen.len() > 1);
}

#[test]
fn skip_is_silent() {
    let mut s = Session::new(5, ErrorPolicy::SkipAndRetry);
    assert_eq!(s.submit("abc"), Response::Skipped);
    assert_eq!(s.phase(), Phase::AwaitingInput);
    assert_eq!(s.secret(), 5);
    let with_junk = run_session(5, ErrorPolicy::SkipAndRetry, &lines(&["", "2", "x", "5"]));
    assert_eq!(
        with_junk,
        vec![
            Response::Skipped,
            Response::Compared { outcome: Outcome::TooSmall, guess: 2 },
            Response::Skipped,
            Response::Compared { outcome: Outcome::Win, guess: 5 },
        ]
    );
}

#[test]
fn abort_after_valid_guesses() {
    let r = run_session(5, ErrorPolicy::Abort, &lines(&["1", "9", "2", "oops", "5"]));
    assert_eq!(
        r,
        vec![
            Response::Compared { outcome: Outcome::TooSmall, guess: 1 },
            Response::Compared { outcome: Outcome::TooBig, guess: 9 },
            Response::Compared { outcome: Outcome::TooSmall, guess: 2 },
            Response::Aborted,
        ]
    );
    let mut s = Session::new(5, ErrorPolicy::Abort);
    assert_eq!(s.submit("1"), Response::Compared { outcome: Outcome::TooSmall, guess: 1 });
    assert_eq!(s.submit("?"), Response::Aborted);
    assert!(s.is_over());
    assert_eq!(s.phase(), Phase::Aborted);
}

#[test]
fn scenario_small_big_win() {
    let r = run_session(4, ErrorPolicy::SkipAndRetry, &lines(&["2", "7", "4"]));
    assert_eq!(r.len(), 3);
    assert_eq!(messages(&r), vec!["Too small!", "Too big!", "You win!"]);
    let r = run_session(4, ErrorPolicy::Abort, &lines(&["2", "7", "4", "1"]));
    assert_eq!(messages(&r), vec!["Too small!", "Too big!", "You win!"]);
}

#[test]
fn scenario_abort_on_malformed() {
    let r = run_session(5, ErrorPolicy::Abort, &lines(&["abc"]));
    assert_eq!(r, vec![Response::Aborted]);
    assert!(r.iter().all(|x| !matches!(x, Response::Compared { .. })));
    assert_eq!(messages(&r), vec!["Please type a number!"]);
}

#[test]
fn no_input_no_answer() {
    assert!(run_session(2, ErrorPolicy::Abort, &Vec::new()).is_empty());
}
