//! The number guessing game.
//!
//! A [`Session`] holds one secret number between [`LOWEST`] and [`HIGHEST`].
//! Each line that the player types is read by [`parse_guess`] and judged by
//! [`Session::step`]; the session is over as soon as a guess equals the
//! secret. Reading and printing are left to the caller.

use crate::text::{
    all_digits, decimal, decimal_text, decimal_value, is_digit, lemma_decimal_round_trip,
    lemma_decimal_value_grows,
};
use rand::Rng;
use vstd::prelude::*;

verus! {

/// The smallest secret a session can hold.
pub const LOWEST: u32 = 1;

/// The largest secret a session can hold.
pub const HIGHEST: u32 = 100;

/// Whether `c` is white space: a character with the Unicode property
/// `White_Space`.
pub open spec fn is_space(c: char) -> bool {
    ||| '\u{9}' <= c <= '\u{d}'
    ||| c == ' '
    ||| c == '\u{85}'
    ||| c == '\u{a0}'
    ||| c == '\u{1680}'
    ||| '\u{2000}' <= c <= '\u{200a}'
    ||| c == '\u{2028}'
    ||| c == '\u{2029}'
    ||| c == '\u{202f}'
    ||| c == '\u{205f}'
    ||| c == '\u{3000}'
}

/// `s` without the white space at its start.
pub open spec fn trim_start(s: Seq<char>) -> Seq<char>
    decreases s.len(),
{
    if s.len() > 0 && is_space(s[0]) {
        trim_start(s.skip(1))
    } else {
        s
    }
}

/// `s` without the white space at its end.
pub open spec fn trim_end(s: Seq<char>) -> Seq<char>
    decreases s.len(),
{
    if s.len() > 0 && is_space(s.last()) {
        trim_end(s.drop_last())
    } else {
        s
    }
}

/// `s` without the white space at either end.
pub open spec fn trimmed(s: Seq<char>) -> Seq<char> {
    trim_end(trim_start(s))
}

/// `s` without one leading plus sign, if it has one.
pub open spec fn unsigned_part(s: Seq<char>) -> Seq<char> {
    if s.len() > 0 && s[0] == '+' {
        s.skip(1)
    } else {
        s
    }
}

/// The guess that a line of input holds.
///
/// White space around the text is ignored. What is left must be one or more
/// decimal digits, with at most one plus sign before them, and the number
/// they write must fit in a `u32`. Any other line holds no guess.
pub open spec fn guess_of(line: Seq<char>) -> Option<u32> {
    let digits = unsigned_part(trimmed(line));
    if digits.len() > 0 && all_digits(digits) && decimal_value(digits) <= u32::MAX {
        Some(decimal_value(digits) as u32)
    } else {
        None
    }
}

fn char_is_space(c: char) -> (b: bool)
    ensures
        b == is_space(c),
{
    ('\u{9}' <= c && c <= '\u{d}') || c == ' ' || c == '\u{85}' || c == '\u{a0}' || c
        == '\u{1680}' || ('\u{2000}' <= c && c <= '\u{200a}') || c == '\u{2028}' || c
        == '\u{2029}' || c == '\u{202f}' || c == '\u{205f}' || c == '\u{3000}'
}

/// The characters of `line`, in order.
fn chars_of(line: &str) -> (chars: Vec<char>)
    ensures
        chars@ == line@,
{
    let mut chars: Vec<char> = Vec::new();
    for c in it: line.chars()
        invariant
            it.seq() == line@,
            chars@ == it.seq().take(it.index() as int),
    {
        chars.push(c);
    }
    chars
}

/// Reads the guess that `line` holds, if it holds one.
pub fn parse_guess(line: &str) -> (guess: Option<u32>)
    ensures
        guess == guess_of(line@),
{
    let chars = chars_of(line);
    let n = chars.len();
    let mut start: usize = 0;
    assert(line@.skip(0) =~= line@);
    while start < n && char_is_space(chars[start])
        invariant
            start <= n,
            n == chars@.len(),
            chars@ == line@,
            trim_start(line@) == trim_start(line@.skip(start as int)),
        decreases n - start,
    {
        assert(line@.skip(start as int).skip(1) =~= line@.skip(start + 1));
        start += 1;
    }
    let mut end: usize = n;
    while end > start && char_is_space(chars[end - 1])
        invariant
            start <= end <= n,
            n == chars@.len(),
            chars@ == line@,
            trim_start(line@) == line@.skip(start as int),
            trimmed(line@) == trim_end(line@.subrange(start as int, end as int)),
        decreases end,
    {
        assert(line@.subrange(start as int, end as int).drop_last() =~= line@.subrange(
            start as int,
            end - 1,
        ));
        end -= 1;
    }
    assert(trimmed(line@) == line@.subrange(start as int, end as int));
    let first: usize = if start < end && chars[start] == '+' {
        start + 1
    } else {
        start
    };
    let ghost digits = line@.subrange(first as int, end as int);
    assert(digits =~= unsigned_part(trimmed(line@)));
    if first == end {
        return None;
    }
    let mut value: u64 = 0;
    let mut i: usize = first;
    while i < end
        invariant
            first <= i <= end <= n,
            n == chars@.len(),
            chars@ == line@,
            digits == line@.subrange(first as int, end as int),
            digits == unsigned_part(trimmed(line@)),
            all_digits(digits.take(i - first)),
            value == decimal_value(digits.take(i - first)),
            value <= u32::MAX,
        decreases end - i,
    {
        let c = chars[i];
        assert(c == digits[i - first]);
        if !('0' <= c && c <= '9') {
            assert(!is_digit(digits[i - first]));
            return None;
        }
        let digit: u64 = (c as u32 - '0' as u32) as u64;
        value = value * 10 + digit;
        assert(digits.take(i - first + 1).drop_last() =~= digits.take(i - first));
        if value > u32::MAX as u64 {
            proof {
                lemma_decimal_value_grows(digits, i - first + 1);
            }
            return None;
        }
        i += 1;
    }
    assert(digits.take(end - first) =~= digits);
    Some(value as u32)
}

/// How a guess stands to the secret.
#[derive(Clone, Copy, Debug, PartialEq, Eq, Structural)]
pub enum Hint {
    /// The guess is less than the secret.
    TooSmall,
    /// The guess is greater than the secret.
    TooBig,
    /// The guess is the secret.
    Correct,
}

/// What the game answers to one line of input.
#[derive(Clone, Copy, Debug, PartialEq, Eq, Structural)]
pub enum Reply {
    /// The line holds no guess.
    Invalid,
    /// The line holds `guess`, which stands to the secret as `hint` says.
    Judged { guess: u32, hint: Hint },
}

/// How `guess` stands to `secret`, by the order of the numbers.
pub open spec fn hint_for(guess: u32, secret: u32) -> Hint {
    if guess < secret {
        Hint::TooSmall
    } else if guess > secret {
        Hint::TooBig
    } else {
        Hint::Correct
    }
}

/// The answer to `line` in a game whose secret is `secret`.
pub open spec fn reply_to(secret: u32, line: Seq<char>) -> Reply {
    match guess_of(line) {
        Some(guess) => Reply::Judged { guess, hint: hint_for(guess, secret) },
        None => Reply::Invalid,
    }
}

/// What a [`Session`] stands for: its secret, and whether it has been guessed.
pub struct SessionState {
    pub secret: u32,
    pub over: bool,
}

/// The state that follows `state` once `line` has been answered.
pub open spec fn state_after(state: SessionState, line: Seq<char>) -> SessionState {
    SessionState {
        secret: state.secret,
        over: state.over || guess_of(line) == Some(state.secret),
    }
}

/// The state reached from `state` by answering `lines` in order, stopping
/// at the first line that ends the game.
pub open spec fn state_after_all(state: SessionState, lines: Seq<Seq<char>>) -> SessionState
    decreases lines.len(),
{
    if state.over || lines.len() == 0 {
        state
    } else {
        state_after_all(state_after(state, lines[0]), lines.skip(1))
    }
}

/// The answers given from `state` to `lines` in order, up to and including
/// the answer that ends the game.
pub open spec fn transcript(state: SessionState, lines: Seq<Seq<char>>) -> Seq<Reply>
    decreases lines.len(),
{
    if state.over || lines.len() == 0 {
        Seq::empty()
    } else {
        seq![reply_to(state.secret, lines[0])] + transcript(
            state_after(state, lines[0]),
            lines.skip(1),
        )
    }
}

/// The text of each line.
pub open spec fn texts(lines: Seq<String>) -> Seq<Seq<char>> {
    Seq::new(lines.len(), |i: int| lines[i]@)
}

/// Whether some line of `lines` holds the guess `secret`.
pub open spec fn guessed(secret: u32, lines: Seq<Seq<char>>) -> bool {
    exists|i: int| 0 <= i < lines.len() && guess_of(#[trigger] lines[i]) == Some(secret)
}

/// A number between `low` and `high`, both included, drawn by
/// `rand::Rng::gen_range` from the generator that `rand::thread_rng` hands
/// out. Which number comes is not stated: only that it lies in the range.
#[verifier::external_body]
fn random_between(low: u32, high: u32) -> (n: u32)
    requires
        low <= high,
    ensures
        low <= n <= high,
{
    rand::thread_rng().gen_range(low..=high)
}

/// One game: a secret between [`LOWEST`] and [`HIGHEST`], and whether it has
/// been guessed yet.
pub struct Session {
    secret: u32,
    over: bool,
}

impl View for Session {
    type V = SessionState;

    closed spec fn view(&self) -> SessionState {
        SessionState { secret: self.secret, over: self.over }
    }
}

impl Session {
    /// The secret lies in the range of the game.
    pub open spec fn wf(&self) -> bool {
        LOWEST <= self@.secret <= HIGHEST
    }

    /// A fresh game with the given secret, if it lies in the range of the game.
    pub fn new(secret: u32) -> (session: Option<Session>)
        ensures
            session is Some <==> LOWEST <= secret <= HIGHEST,
            session matches Some(s) ==> s@ == (SessionState { secret, over: false }),
    {
        if LOWEST <= secret && secret <= HIGHEST {
            Some(Session { secret, over: false })
        } else {
            None
        }
    }

    /// A fresh game with a secret drawn at random from the range of the game.
    pub fn start() -> (session: Session)
        ensures
            session.wf(),
            !session@.over,
    {
        let secret = random_between(LOWEST, HIGHEST);
        Session { secret, over: false }
    }

    /// The secret of this game.
    pub fn secret(&self) -> (secret: u32)
        ensures
            secret == self@.secret,
    {
        self.secret
    }

    /// Whether the secret has been guessed.
    pub fn is_over(&self) -> (over: bool)
        ensures
            over == self@.over,
    {
        self.over
    }

    /// Answers one line of input in a game that is not over.
    ///
    /// The game is over afterwards exactly if the line holds the secret. The
    /// secret itself never changes, and a line that holds no guess changes
    /// nothing at all.
    pub fn step(&mut self, line: &str) -> (reply: Reply)
        requires
            !old(self)@.over,
        ensures
            reply == reply_to(old(self)@.secret, line@),
            final(self)@ == state_after(old(self)@, line@),
            final(self).wf() == old(self).wf(),
    {
        match parse_guess(line) {
            None => Reply::Invalid,
            Some(guess) => {
                let hint = if guess < self.secret {
                    Hint::TooSmall
                } else if guess > self.secret {
                    Hint::TooBig
                } else {
                    self.over = true;
                    Hint::Correct
                };
                Reply::Judged { guess, hint }
            },
        }
    }

    /// Answers `lines` in order until the game is over or the lines run out,
    /// and returns the answers given.
    pub fn play(&mut self, lines: &Vec<String>) -> (replies: Vec<Reply>)
        ensures
            replies@ == transcript(old(self)@, texts(lines@)),
            final(self)@ == state_after_all(old(self)@, texts(lines@)),
            final(self).wf() == old(self).wf(),
    {
        let ghost all = texts(lines@);
        let mut replies: Vec<Reply> = Vec::new();
        let mut i: usize = 0;
        assert(all.skip(0) =~= all);
        while i < lines.len() && !self.over
            invariant
                i <= lines.len(),
                all == texts(lines@),
                self.wf() == old(self).wf(),
                transcript(old(self)@, all) == replies@ + transcript(self@, all.skip(i as int)),
                state_after_all(old(self)@, all) == state_after_all(self@, all.skip(i as int)),
            decreases lines.len() - i,
        {
            let ghost before = self@;
            let ghost rest = all.skip(i as int);
            assert(rest[0] == lines@[i as int]@);
            assert(rest.skip(1) =~= all.skip(i + 1));
            let reply = self.step(lines[i].as_str());
            replies.push(reply);
            assert(replies@ + transcript(self@, all.skip(i + 1)) =~= replies@.drop_last() + (
            seq![reply] + transcript(self@, all.skip(i + 1))));
            i += 1;
        }
        assert(replies@ + Seq::<Reply>::empty() =~= replies@);
        replies
    }
}

/// A game that starts fresh is over after `lines` exactly if one of them
/// holds the secret, and its secret is then what it was.
pub proof fn lemma_over_iff_guessed(secret: u32, lines: Seq<Seq<char>>)
    requires
        LOWEST <= secret <= HIGHEST,
    ensures
        state_after_all(SessionState { secret, over: false }, lines).over <==> guessed(
            secret,
            lines,
        ),
        state_after_all(SessionState { secret, over: false }, lines).secret == secret,
    decreases lines.len(),
{
    let fresh = SessionState { secret, over: false };
    if lines.len() == 0 {
    } else if guess_of(lines[0]) == Some(secret) {
        let won = state_after(fresh, lines[0]);
        assert(state_after_all(won, lines.skip(1)) == won);
    } else {
        let rest = lines.skip(1);
        assert(state_after(fresh, lines[0]) == fresh);
        lemma_over_iff_guessed(secret, rest);
        if guessed(secret, rest) {
            let i = choose|i: int| 0 <= i < rest.len() && guess_of(#[trigger] rest[i]) == Some(secret);
            assert(lines[i + 1] == rest[i]);
        }
        if guessed(secret, lines) {
            let i = choose|i: int| 0 <= i < lines.len() && guess_of(#[trigger] lines[i]) == Some(secret);
            assert(rest[i - 1] == lines[i]);
        }
    }
}

/// Every answer in a game is the judgment of its own line: a line that holds
/// a number below the secret is answered "too small", one above it "too
/// big", and only the last answer can be the one that ends the game.
pub proof fn lemma_transcript_judges_each_line(secret: u32, lines: Seq<Seq<char>>, i: int)
    requires
        LOWEST <= secret <= HIGHEST,
        0 <= i < transcript(SessionState { secret, over: false }, lines).len(),
    ensures
        i < lines.len(),
        transcript(SessionState { secret, over: false }, lines)[i] == reply_to(secret, lines[i]),
        guess_of(lines[i]) == Some(secret) <==> i == transcript(
            SessionState { secret, over: false },
            lines,
        ).len() - 1 && state_after_all(SessionState { secret, over: false }, lines).over,
    decreases lines.len(),
{
    let fresh = SessionState { secret, over: false };
    let rest = lines.skip(1);
    if guess_of(lines[0]) == Some(secret) {
        let won = state_after(fresh, lines[0]);
        assert(transcript(won, rest) =~= Seq::<Reply>::empty());
        assert(state_after_all(won, rest) == won);
    } else {
        assert(state_after(fresh, lines[0]) == fresh);
        if i > 0 {
            lemma_transcript_judges_each_line(secret, rest, i - 1);
            assert(rest[i - 1] == lines[i]);
        } else {
            if transcript(fresh, lines).len() == 1 {
                assert(transcript(fresh, rest).len() == 0);
                lemma_unfinished_answers_all(secret, rest);
            }
        }
    }
}

/// A fresh game answers every line unless one of them ends it.
pub proof fn lemma_unfinished_answers_all(secret: u32, lines: Seq<Seq<char>>)
    requires
        LOWEST <= secret <= HIGHEST,
    ensures
        !state_after_all(SessionState { secret, over: false }, lines).over ==> transcript(
            SessionState { secret, over: false },
            lines,
        ).len() == lines.len(),
        transcript(SessionState { secret, over: false }, lines).len() <= lines.len(),
    decreases lines.len(),
{
    let fresh = SessionState { secret, over: false };
    if lines.len() > 0 {
        let rest = lines.skip(1);
        if guess_of(lines[0]) == Some(secret) {
            let won = state_after(fresh, lines[0]);
            assert(state_after_all(won, rest) == won);
            assert(transcript(won, rest) =~= Seq::<Reply>::empty());
        } else {
            assert(state_after(fresh, lines[0]) == fresh);
            lemma_unfinished_answers_all(secret, rest);
        }
    }
}

/// A line that holds no guess is answered as invalid and leaves the game as
/// it was: the secret is the same, and the game is no nearer its end.
pub proof fn lemma_invalid_line_changes_nothing(state: SessionState, line: Seq<char>)
    requires
        guess_of(line) is None,
    ensures
        state_after(state, line) == state,
        reply_to(state.secret, line) == Reply::Invalid,
{
}

/// A number written in decimal is read as the guess of that number.
pub proof fn lemma_written_number_is_its_guess(n: u32)
    ensures
        guess_of(decimal(n as nat)) == Some(n),
{
    let text = decimal(n as nat);
    lemma_decimal_round_trip(n as nat);
    assert(is_digit(text[0]) && is_digit(text.last()));
    assert(trim_start(text) == text);
    assert(trim_end(text) == text);
    assert(unsigned_part(text) == text);
}

/// What is printed where a line holds no guess.
pub open spec fn invalid_message() -> Seq<char> {
    "Please enter a valid number!"@
}

/// What is printed before the judgment of a guess, in front of the guess.
pub open spec fn echo_prefix() -> Seq<char> {
    "You guessed: "@
}

/// What is printed for a hint.
pub open spec fn hint_message(hint: Hint) -> Seq<char> {
    match hint {
        Hint::TooSmall => "Too small!"@,
        Hint::TooBig => "Too big!"@,
        Hint::Correct => "You win! \u{1F389}"@,
    }
}

/// The lines that are printed for `reply`: for a line without a guess the
/// request for a valid number, and else the guess as it was understood,
/// followed by its judgment.
pub open spec fn reply_lines(reply: Reply) -> Seq<Seq<char>> {
    match reply {
        Reply::Invalid => seq![invalid_message()],
        Reply::Judged { guess, hint } => seq![
            echo_prefix() + decimal(guess as nat),
            hint_message(hint),
        ],
    }
}

impl Reply {
    /// Whether this reply ends the game.
    pub open spec fn spec_is_win(&self) -> bool {
        *self matches Reply::Judged { hint, .. } && hint == Hint::Correct
    }

    /// Whether this reply ends the game.
    #[verifier::when_used_as_spec(spec_is_win)]
    pub fn is_win(&self) -> (win: bool)
        ensures
            win == self.spec_is_win(),
    {
        match self {
            Reply::Judged { hint: Hint::Correct, .. } => true,
            _ => false,
        }
    }

    /// The lines to print for this reply.
    pub fn lines(&self) -> (lines: Vec<String>)
        ensures
            texts(lines@) == reply_lines(*self),
    {
        let mut lines: Vec<String> = Vec::new();
        match self {
            Reply::Invalid => {
                lines.push("Please enter a valid number!".to_owned());
            },
            Reply::Judged { guess, hint } => {
                let mut echo = "You guessed: ".to_owned();
                let number = decimal_text(*guess as u64);
                echo.append(number.as_str());
                lines.push(echo);
                let judgment = match hint {
                    Hint::TooSmall => "Too small!",
                    Hint::TooBig => "Too big!",
                    Hint::Correct => "You win! \u{1F389}",
                };
                lines.push(judgment.to_owned());
            },
        }
        assert(texts(lines@) =~= reply_lines(*self));
        lines
    }
}

/// The two lines that open a game: a greeting, and the range in which the
/// secret lies.
pub open spec fn welcome_lines() -> Seq<Seq<char>> {
    seq![
        "Welcome to the Number Guessing Game!"@,
        "Try to guess the number between "@ + decimal(LOWEST as nat) + " and "@ + decimal(
            HIGHEST as nat,
        ) + "."@,
    ]
}

/// What is printed before each line is read: an empty line, and the request
/// for a guess.
pub open spec fn prompt_text() -> Seq<char> {
    "\nPlease input your guess:"@
}

/// The lines to print when a game opens.
pub fn welcome() -> (lines: Vec<String>)
    ensures
        texts(lines@) == welcome_lines(),
{
    let mut lines: Vec<String> = Vec::new();
    lines.push("Welcome to the Number Guessing Game!".to_owned());
    let mut range = "Try to guess the number between ".to_owned();
    range.append(decimal_text(LOWEST as u64).as_str());
    range.append(" and ");
    range.append(decimal_text(HIGHEST as u64).as_str());
    range.append(".");
    lines.push(range);
    assert(texts(lines@) =~= welcome_lines());
    lines
}

/// The text to print before each line is read.
pub fn prompt() -> (text: String)
    ensures
        text@ == prompt_text(),
{
    "\nPlease input your guess:".to_owned()
}

} // verus!
