//! The guessing game as a state machine. A session holds a secret in
//! `1..=9`, fixed for its lifetime; each line of input is either a guess,
//! answered with how it compares to the secret, or malformed, which the
//! session's error policy either skips or treats as fatal. The caller reads
//! the lines and shows the replies.
use crate::parse::{guess_of, parse_guess};
use rand::Rng;
use vstd::prelude::*;
use vstd::string::*;

verus! {

/// The smallest secret a session may hold.
pub const LOWEST_SECRET: u32 = 1;

/// One past the largest secret a session may hold.
pub const SECRET_BOUND: u32 = 10;

/// What happens to a line that holds no number.
#[derive(Clone, Copy, Debug, PartialEq, Eq, Structural)]
pub enum ErrorPolicy {
    /// The session ends at once with a diagnostic.
    Abort,
    /// The line is dropped without a word and the next one is awaited.
    SkipAndRetry,
}

/// How a guess compares with the secret.
#[derive(Clone, Copy, Debug, PartialEq, Eq, Structural)]
pub enum Outcome {
    TooSmall,
    TooBig,
    Win,
}

/// Where a session stands.
#[derive(Clone, Copy, Debug, PartialEq, Eq, Structural)]
pub enum Phase {
    AwaitingInput,
    Won,
    Aborted,
}

/// A session's answer to one line of input.
#[derive(Clone, Copy, Debug, PartialEq, Eq, Structural)]
pub enum Response {
    /// The line held the guess `guess`, which compared as `outcome`.
    Compared { outcome: Outcome, guess: u32 },
    /// The line held no number and was dropped.
    Skipped,
    /// The line held no number and the session ended.
    Aborted,
}

pub open spec fn outcome_of(guess: u32, secret: u32) -> Outcome {
    if guess < secret {
        Outcome::TooSmall
    } else if guess > secret {
        Outcome::TooBig
    } else {
        Outcome::Win
    }
}

/// The answer that a session with `secret` and `policy` gives to `line`.
pub open spec fn response_to(secret: u32, policy: ErrorPolicy, line: Seq<char>) -> Response {
    match guess_of(line) {
        Some(g) => Response::Compared { outcome: outcome_of(g, secret), guess: g },
        None => match policy {
            ErrorPolicy::Abort => Response::Aborted,
            ErrorPolicy::SkipAndRetry => Response::Skipped,
        },
    }
}

/// Whether the session is over once it has given `r`.
pub open spec fn ends_session(r: Response) -> bool {
    match r {
        Response::Compared { outcome, guess: _ } => outcome == Outcome::Win,
        Response::Skipped => false,
        Response::Aborted => true,
    }
}

/// Where a session stands after answering `r`.
pub open spec fn phase_after(r: Response) -> Phase {
    match r {
        Response::Compared { outcome: Outcome::Win, guess: _ } => Phase::Won,
        Response::Aborted => Phase::Aborted,
        _ => Phase::AwaitingInput,
    }
}

/// The answers of a fresh session to `lines`, in order: a session reads no
/// further line once it is over.
pub open spec fn play(secret: u32, policy: ErrorPolicy, lines: Seq<Seq<char>>) -> Seq<Response>
    decreases lines.len(),
{
    if lines.len() == 0 {
        Seq::empty()
    } else {
        let r = response_to(secret, policy, lines[0]);
        if ends_session(r) {
            seq![r]
        } else {
            seq![r] + play(secret, policy, lines.drop_first())
        }
    }
}

/// Relies on rand's `thread_rng` and `Rng::gen_range(low, high)`: a value
/// drawn from `low..high`. `gen_range` panics where `low >= high`, which
/// `requires` leaves out; `thread_rng` panics only where the system's random
/// source cannot seed it, which no argument controls.
#[verifier::external_body]
fn random_in_range(low: u32, high: u32) -> (r: u32)
    requires
        low < high,
    ensures
        low <= r < high,
{
    rand::thread_rng().gen_range(low, high)
}

/// How `guess` compares with `secret`.
pub fn compare_guess(guess: u32, secret: u32) -> (r: Outcome)
    ensures
        r == outcome_of(guess, secret),
        r == Outcome::TooSmall <==> guess < secret,
        r == Outcome::TooBig <==> guess > secret,
        r == Outcome::Win <==> guess == secret,
{
    if guess < secret {
        Outcome::TooSmall
    } else if guess > secret {
        Outcome::TooBig
    } else {
        Outcome::Win
    }
}

impl Outcome {
    /// The line shown for this outcome.
    pub fn message(&self) -> (r: String)
        ensures
            r@ == outcome_text(*self),
    {
        match self {
            Outcome::TooSmall => String::from_str("Too small!"),
            Outcome::TooBig => String::from_str("Too big!"),
            Outcome::Win => String::from_str("You win!"),
        }
    }
}

pub open spec fn outcome_text(o: Outcome) -> Seq<char> {
    match o {
        Outcome::TooSmall => "Too small!"@,
        Outcome::TooBig => "Too big!"@,
        Outcome::Win => "You win!"@,
    }
}

/// The diagnostic shown when a session ends on a line that holds no number.
pub fn abort_message() -> (r: String)
    ensures
        r@ == "Please type a number!"@,
{
    String::from_str("Please type a number!")
}

/// One run of the game, from the drawing of its secret to a win or an abort.
pub struct Session {
    secret: u32,
    policy: ErrorPolicy,
    phase: Phase,
}

impl Session {
    pub closed spec fn spec_secret(&self) -> u32 {
        self.secret
    }

    pub closed spec fn spec_policy(&self) -> ErrorPolicy {
        self.policy
    }

    pub closed spec fn spec_phase(&self) -> Phase {
        self.phase
    }

    /// The secret lies in `LOWEST_SECRET..SECRET_BOUND`.
    pub open spec fn wf(&self) -> bool {
        LOWEST_SECRET <= self.spec_secret() < SECRET_BOUND
    }

    /// A session awaiting its first line, with the given secret.
    pub fn new(secret: u32, policy: ErrorPolicy) -> (r: Session)
        requires
            LOWEST_SECRET <= secret < SECRET_BOUND,
        ensures
            r.wf(),
            r.spec_secret() == secret,
            r.spec_policy() == policy,
            r.spec_phase() == Phase::AwaitingInput,
    {
        Session { secret, policy, phase: Phase::AwaitingInput }
    }

    /// A session awaiting its first line, with a secret drawn at random.
    pub fn start(policy: ErrorPolicy) -> (r: Session)
        ensures
            r.wf(),
            r.spec_policy() == policy,
            r.spec_phase() == Phase::AwaitingInput,
    {
        let secret = random_in_range(LOWEST_SECRET, SECRET_BOUND);
        Session::new(secret, policy)
    }

    pub fn secret(&self) -> (r: u32)
        ensures
            r == self.spec_secret(),
    {
        self.secret
    }

    pub fn policy(&self) -> (r: ErrorPolicy)
        ensures
            r == self.spec_policy(),
    {
        self.policy
    }

    pub fn phase(&self) -> (r: Phase)
        ensures
            r == self.spec_phase(),
    {
        self.phase
    }

    /// Whether the session has been won or aborted.
    pub fn is_over(&self) -> (r: bool)
        ensures
            r == (self.spec_phase() != Phase::AwaitingInput),
    {
        !matches!(self.phase, Phase::AwaitingInput)
    }

    /// Answers one line of input. The secret and the policy never change; a
    /// skipped line leaves the session exactly as it was.
    pub fn submit(&mut self, line: &str) -> (r: Response)
        requires
            old(self).spec_phase() == Phase::AwaitingInput,
        ensures
            r == response_to(old(self).spec_secret(), old(self).spec_policy(), line@),
            final(self).spec_secret() == old(self).spec_secret(),
            final(self).spec_policy() == old(self).spec_policy(),
            final(self).spec_phase() == phase_after(r),
            r == Response::Skipped ==> *final(self) == *old(self),
            final(self).wf() == old(self).wf(),
    {
        match parse_guess(line) {
            Some(guess) => {
                let outcome = compare_guess(guess, self.secret);
                if matches!(outcome, Outcome::Win) {
                    self.phase = Phase::Won;
                }
                Response::Compared { outcome, guess }
            },
            None => match self.policy {
                ErrorPolicy::Abort => {
                    self.phase = Phase::Aborted;
                    Response::Aborted
                },
                ErrorPolicy::SkipAndRetry => Response::Skipped,
            },
        }
    }
}

/// Plays a session with `secret` and `policy` on `lines`, and returns its
/// answers in order; lines after the one that ends the session are not read.
pub fn run_session(secret: u32, policy: ErrorPolicy, lines: &Vec<String>) -> (r: Vec<Response>)
    requires
        LOWEST_SECRET <= secret < SECRET_BOUND,
    ensures
        r@ == play(secret, policy, lines@.map_values(|l: String| l@)),
{
    let ghost all = lines@.map_values(|l: String| l@);
    let mut session = Session::new(secret, policy);
    let mut out: Vec<Response> = Vec::new();
    let mut i: usize = 0;
    assert(all.subrange(0, all.len() as int) =~= all);
    while i < lines.len()
        invariant
            all == lines@.map_values(|l: String| l@),
            i <= lines.len(),
            session.spec_secret() == secret,
            session.spec_policy() == policy,
            session.spec_phase() == Phase::AwaitingInput,
            play(secret, policy, all) == out@ + play(
                secret,
                policy,
                all.subrange(i as int, all.len() as int),
            ),
        decreases lines.len() - i,
    {
        let r = session.submit(lines[i].as_str());
        let ghost rest = all.subrange(i as int, all.len() as int);
        assert(rest[0] == lines@[i as int]@);
        assert(rest.drop_first() =~= all.subrange(i + 1, all.len() as int));
        out.push(r);
        if session.is_over() {
            assert(out@ =~= out@.drop_last() + seq![r]);
            return out;
        }
        assert(out@ =~= out@.drop_last() + seq![r]);
        i = i + 1;
    }
    assert(out@ + Seq::<Response>::empty() =~= out@);
    out
}

/// A line that holds a guess is answered by comparing it with the secret: a
/// guess below the secret is too small and one above is too big, and the
/// session reads on; a guess equal to the secret wins, and no line after it is
/// read.
pub proof fn law_guess_is_compared(
    secret: u32,
    policy: ErrorPolicy,
    line: Seq<char>,
    rest: Seq<Seq<char>>,
)
    requires
        LOWEST_SECRET <= secret < SECRET_BOUND,
        guess_of(line) is Some,
    ensures
        ({
            let g = guess_of(line)->0;
            let all = play(secret, policy, seq![line] + rest);
            &&& g < secret ==> all == seq![
                Response::Compared { outcome: Outcome::TooSmall, guess: g },
            ] + play(secret, policy, rest)
            &&& g > secret ==> all == seq![
                Response::Compared { outcome: Outcome::TooBig, guess: g },
            ] + play(secret, policy, rest)
            &&& g == secret ==> all == seq![
                Response::Compared { outcome: Outcome::Win, guess: g },
            ]
        }),
{
    assert((seq![line] + rest).drop_first() =~= rest);
}

/// Every guess of a session is compared with one and the same secret, the one
/// the session was started with.
pub proof fn law_secret_is_fixed(secret: u32, policy: ErrorPolicy, lines: Seq<Seq<char>>)
    ensures
        forall|i: int|
            0 <= i < play(secret, policy, lines).len() && (#[trigger] play(
                secret,
                policy,
                lines,
            )[i]) is Compared ==> play(secret, policy, lines)[i]->outcome == outcome_of(
                play(secret, policy, lines)[i]->guess,
                secret,
            ),
    decreases lines.len(),
{
    if lines.len() > 0 {
        law_secret_is_fixed(secret, policy, lines.drop_first());
    }
}

/// Under `SkipAndRetry` a line that holds no number is answered with
/// `Skipped` alone, and the session then answers the following lines as if
/// that line had never come.
pub proof fn law_skip_is_silent(secret: u32, line: Seq<char>, rest: Seq<Seq<char>>)
    requires
        guess_of(line) is None,
    ensures
        play(secret, ErrorPolicy::SkipAndRetry, seq![line] + rest) == seq![Response::Skipped]
            + play(secret, ErrorPolicy::SkipAndRetry, rest),
{
    assert((seq![line] + rest).drop_first() =~= rest);
}

/// Under `Abort` a line that holds no number ends the session with `Aborted`,
/// however many guesses that did not win came before it; no line after it is
/// read.
pub proof fn law_abort_ends_session(
    secret: u32,
    before: Seq<Seq<char>>,
    line: Seq<char>,
    after: Seq<Seq<char>>,
)
    requires
        guess_of(line) is None,
        forall|k: int|
            0 <= k < before.len() ==> #[trigger] guess_of(before[k]) is Some && guess_of(
                before[k],
            )->0 != secret,
    ensures
        play(secret, ErrorPolicy::Abort, before + seq![line] + after) == play(
            secret,
            ErrorPolicy::Abort,
            before,
        ) + seq![Response::Aborted],
    decreases before.len(),
{
    let p = ErrorPolicy::Abort;
    if before.len() == 0 {
        assert(before + seq![line] + after =~= seq![line] + after);
        assert(play(secret, p, before) =~= Seq::<Response>::empty());
        assert(Seq::<Response>::empty() + seq![Response::Aborted] =~= seq![Response::Aborted]);
    } else {
        let tail = before.drop_first();
        assert forall|k: int| 0 <= k < tail.len() implies #[trigger] guess_of(tail[k]) is Some
            && guess_of(tail[k])->0 != secret by {
            assert(tail[k] == before[k + 1]);
        }
        law_abort_ends_session(secret, tail, line, after);
        assert(guess_of(before[0]) is Some);
        assert((before + seq![line] + after).drop_first() =~= tail + seq![line] + after);
        assert((before + seq![line] + after)[0] == before[0]);
        let r = response_to(secret, p, before[0]);
        assert(seq![r] + (play(secret, p, tail) + seq![Response::Aborted]) =~= (seq![r] + play(
            secret,
            p,
            tail,
        )) + seq![Response::Aborted]);
    }
}

} // verus!
