//! The idle timeout of a streamed response.
//!
//! A stream of SSE lines may go for a bounded time without a data-bearing line. Comment
//! keepalives (`: ping`) and blank separators do not count as progress, so a provider that
//! wedges while it goes on sending keepalives is found out.
//!
//! Points in time are nanoseconds since any fixed instant.

use crate::error::{ErrorView, ProviderError};
use crate::text::{begins_with, blank, decimal, is_blank, push_decimal};
use vstd::prelude::*;

verus! {

/// How long, in seconds, a stream may go without a data-bearing line.
pub const STREAM_IDLE_TIMEOUT_SECS: u64 = 120;

const NANOS_PER_SEC: u128 = 1_000_000_000;

/// A line that carries an SSE field: neither blank nor a comment.
pub open spec fn data_bearing(line: Seq<char>) -> bool {
    &&& !blank(line)
    &&& !(line.len() > 0 && line[0] == ':')
}

/// Whether `line` carries an SSE field.
pub fn is_data_bearing_line(line: &str) -> (yes: bool)
    ensures
        yes == data_bearing(line@),
{
    !is_blank(line) && !begins_with(line, ':')
}

/// `secs` seconds, in nanoseconds.
pub open spec fn nanos(secs: u64) -> int {
    secs * 1_000_000_000
}

/// The words of the error that a stalled stream ends in.
pub open spec fn stall_words(idle_timeout_secs: u64) -> Seq<char> {
    "Stream stalled: no data-bearing SSE line received for "@ + decimal(idle_timeout_secs as nat)
        + "s (keepalive comment frames do not count as progress)"@
}

/// The error that a stalled stream ends in.
pub fn stall_error(idle_timeout_secs: u64) -> (error: ProviderError)
    ensures
        error@ == ErrorView::NetworkError(stall_words(idle_timeout_secs)),
{
    let mut words: String = "Stream stalled: no data-bearing SSE line received for ".to_owned();
    push_decimal(&mut words, idle_timeout_secs);
    words.append("s (keepalive comment frames do not count as progress)");
    ProviderError::NetworkError(words)
}

/// What the underlying lines did while no deadline was set.
pub enum FirstEvent<E> {
    /// A line came.
    Line(String),
    /// Reading failed.
    Broken(E),
    /// The lines are over.
    End,
}

/// What the underlying lines did while a deadline was set.
pub enum LineEvent<E> {
    /// A line came.
    Line(String),
    /// Reading failed.
    Broken(E),
    /// The lines are over.
    End,
    /// The deadline passed with no line ready.
    TimedOut,
}

/// What the guarded stream does next, and the state `S` it goes on in.
pub enum LineStep<E, S> {
    /// Hands `0` out, then goes on in `1`.
    Yield(String, S),
    /// Is over.
    Finish,
    /// Ends in the error that reading failed with.
    Broken(E),
    /// Ends because no data-bearing line came in time.
    Stalled(ProviderError),
}

/// A guarded stream that has had no line yet. It waits without a deadline: how long the
/// first line may take is the request timeout's business.
pub struct AwaitingFirst {
    pub idle_timeout_secs: u64,
}

/// A guarded stream that has handed out its first line and has not been asked for another.
pub struct HandedFirst {
    pub idle_timeout_secs: u64,
}

/// A guarded stream past its first line, waiting for a line until `deadline`.
pub struct Watching {
    pub idle_timeout_secs: u64,
    pub deadline: u128,
}

/// Guards a stream of lines with an idle timeout.
pub fn with_data_line_idle_timeout(idle_timeout_secs: u64) -> (guard: AwaitingFirst)
    ensures
        guard.idle_timeout_secs == idle_timeout_secs,
{
    AwaitingFirst { idle_timeout_secs }
}

/// The deadline that holds once `line` has come at `now`: a data-bearing line moves it, no
/// other does.
pub open spec fn moved_deadline(deadline: int, idle: int, line: Seq<char>, now: int) -> int {
    if data_bearing(line) {
        now + idle
    } else {
        deadline
    }
}

/// What a [`LineStep`] of a [`Watching`] guard comes to: the characters handed out and what
/// the guard goes on with, or the end.
pub enum Outcome<E> {
    Yield { line: Seq<char>, idle_timeout_secs: u64, deadline: int },
    Finish,
    Broken(E),
    Stalled(ErrorView),
}

impl<E> LineStep<E, Watching> {
    /// What this step comes to.
    pub open spec fn outcome(self) -> Outcome<E> {
        match self {
            LineStep::Yield(line, next) => Outcome::Yield {
                line: line@,
                idle_timeout_secs: next.idle_timeout_secs,
                deadline: next.deadline as int,
            },
            LineStep::Finish => Outcome::Finish,
            LineStep::Broken(error) => Outcome::Broken(error),
            LineStep::Stalled(error) => Outcome::Stalled(error@),
        }
    }
}

/// What a guard past its first line does on `event` at `now`.
pub open spec fn watch_step<E>(
    idle_timeout_secs: u64,
    deadline: int,
    event: LineEvent<E>,
    now: int,
) -> Outcome<E> {
    match event {
        LineEvent::Line(line) => Outcome::Yield {
            line: line@,
            idle_timeout_secs,
            deadline: moved_deadline(deadline, nanos(idle_timeout_secs), line@, now),
        },
        LineEvent::Broken(error) => Outcome::Broken(error),
        LineEvent::End => Outcome::Finish,
        LineEvent::TimedOut => Outcome::Stalled(
            ErrorView::NetworkError(stall_words(idle_timeout_secs)),
        ),
    }
}

impl AwaitingFirst {
    /// Takes in what came first. The first line is handed out whatever it holds.
    pub fn on_first<E>(self, event: FirstEvent<E>) -> (step: LineStep<E, HandedFirst>)
        ensures
            match event {
                FirstEvent::Line(line) => step == LineStep::<E, HandedFirst>::Yield(
                    line,
                    HandedFirst { idle_timeout_secs: self.idle_timeout_secs },
                ),
                FirstEvent::Broken(error) => step == LineStep::<E, HandedFirst>::Broken(error),
                FirstEvent::End => step == LineStep::<E, HandedFirst>::Finish,
            },
    {
        match event {
            FirstEvent::Line(line) => LineStep::Yield(
                line,
                HandedFirst { idle_timeout_secs: self.idle_timeout_secs },
            ),
            FirstEvent::Broken(error) => LineStep::Broken(error),
            FirstEvent::End => LineStep::Finish,
        }
    }
}

fn deadline_from(now: u64, idle_timeout_secs: u64) -> (deadline: u128)
    ensures
        deadline == now + nanos(idle_timeout_secs),
{
    now as u128 + idle_timeout_secs as u128 * NANOS_PER_SEC
}

impl HandedFirst {
    /// Takes in that the consumer asked for the next line at `now`. From here on the
    /// deadline runs.
    pub fn resume(self, now: u64) -> (guard: Watching)
        ensures
            guard.idle_timeout_secs == self.idle_timeout_secs,
            guard.deadline == now + nanos(self.idle_timeout_secs),
    {
        Watching {
            idle_timeout_secs: self.idle_timeout_secs,
            deadline: deadline_from(now, self.idle_timeout_secs),
        }
    }
}

impl Watching {
    /// Takes in what happened, at `now`. Every line is handed out unchanged; only a
    /// data-bearing one moves the deadline.
    pub fn on_event<E>(self, event: LineEvent<E>, now: u64) -> (step: LineStep<E, Watching>)
        ensures
            step.outcome() == watch_step(
                self.idle_timeout_secs,
                self.deadline as int,
                event,
                now as int,
            ),
            step matches LineStep::Yield(line, _) ==> event == LineEvent::<E>::Line(line),
    {
        match event {
            LineEvent::Line(line) => {
                let deadline: u128 = if is_data_bearing_line(line.as_str()) {
                    deadline_from(now, self.idle_timeout_secs)
                } else {
                    self.deadline
                };
                LineStep::Yield(
                    line,
                    Watching { idle_timeout_secs: self.idle_timeout_secs, deadline },
                )
            },
            LineEvent::Broken(error) => LineStep::Broken(error),
            LineEvent::End => LineStep::Finish,
            LineEvent::TimedOut => LineStep::Stalled(stall_error(self.idle_timeout_secs)),
        }
    }
}

} // verus!
