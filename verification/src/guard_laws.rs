//! What may be relied on of the guard of a stream's lines, call by call.

use crate::error::ProviderError;
use crate::idle::{
    data_bearing, is_data_bearing_line, nanos, stall_error, stall_words,
    with_data_line_idle_timeout, AwaitingFirst, FirstEvent, HandedFirst, LineEvent, LineStep,
    Watching,
};
use crate::text::{decimal, white_space};
use crate::text_laws::{decimal_numerals_read_back, numeral_value};
use vstd::prelude::*;

verus! {

/// A line is progress if and only if some character of it is not white space and its first
/// character is not a colon. Nothing else matters: neither its length nor what else it holds.
pub proof fn progress_is_seen_in_the_characters(line: &str, yes: bool)
    requires
        call_ensures(is_data_bearing_line, (line,), yes),
    ensures
        yes <==> {
            &&& exists|i: int| 0 <= i < line@.len() && !white_space(#[trigger] line@[i])
            &&& line@[0] != ':'
        },
        yes == data_bearing(line@),
{
}

/// Lines that begin with a visible character other than a colon, such as SSE fields, are
/// progress, whatever follows and however much.
pub proof fn fields_are_progress(line: &str, yes: bool)
    requires
        call_ensures(is_data_bearing_line, (line,), yes),
        line@.len() > 0,
        !white_space(line@[0]),
        line@[0] != ':',
    ensures
        yes,
{
}

/// Every line that begins with a colon is a keepalive, whatever follows, and so is every line
/// without anything but white space.
pub proof fn comments_and_separators_are_keepalives(line: &str, yes: bool)
    requires
        call_ensures(is_data_bearing_line, (line,), yes),
    ensures
        line@.len() > 0 && line@[0] == ':' ==> !yes,
        (forall|i: int| 0 <= i < line@.len() ==> white_space(#[trigger] line@[i])) ==> !yes,
        line@.len() == 0 ==> !yes,
{
}

/// A line that is progress stays so when more is appended to it, and a comment stays a comment.
pub proof fn longer_lines_are_no_less_progress(
    line: &str,
    longer: &str,
    more: Seq<char>,
    yes: bool,
    longer_yes: bool,
)
    requires
        call_ensures(is_data_bearing_line, (line,), yes),
        call_ensures(is_data_bearing_line, (longer,), longer_yes),
        longer@ == line@ + more,
    ensures
        yes ==> longer_yes,
        line@.len() > 0 && line@[0] == ':' ==> !longer_yes,
        (exists|i: int| 0 <= i < line@.len() && !white_space(#[trigger] line@[i])) ==> yes
            == longer_yes,
{
    if exists|i: int| 0 <= i < line@.len() && !white_space(#[trigger] line@[i]) {
        let i = choose|i: int| 0 <= i < line@.len() && !white_space(#[trigger] line@[i]);
        assert(longer@[i] == line@[i]);
        assert(longer@[0] == line@[0]);
    }
}

/// What is said of lines holds of their characters: of any two lines put together, the whole
/// is data-bearing where the first is.
pub proof fn appending_keeps_data(line: Seq<char>, more: Seq<char>)
    ensures
        data_bearing(line) <==> {
            &&& exists|i: int| 0 <= i < line.len() && !white_space(#[trigger] line[i])
            &&& line[0] != ':'
        },
        data_bearing(line) ==> data_bearing(line + more),
        line.len() > 0 && line[0] == ':' ==> !data_bearing(line + more),
{
    if data_bearing(line) {
        let i = choose|i: int| 0 <= i < line.len() && !white_space(#[trigger] line[i]);
        assert((line + more)[i] == line[i]);
    }
}

/// The stall error is a network error whose words name the idle timeout as a decimal numeral.
pub proof fn the_stall_error_names_its_timeout(idle_timeout_secs: u64, error: ProviderError)
    requires
        call_ensures(stall_error, (idle_timeout_secs,), error),
    ensures
        error is NetworkError,
        exists|numeral: Seq<char>|
            {
                &&& #[trigger] numeral_value(numeral) == idle_timeout_secs
                &&& numeral.len() > 0
                &&& forall|i: int| 0 <= i < numeral.len() ==> '0' <= #[trigger] numeral[i] <= '9'
                &&& numeral[0] == '0' ==> numeral.len() == 1
                &&& error->NetworkError_0@
                    == "Stream stalled: no data-bearing SSE line received for "@ + numeral
                    + "s (keepalive comment frames do not count as progress)"@
            },
{
    decimal_numerals_read_back(idle_timeout_secs as nat);
    let numeral = decimal(idle_timeout_secs as nat);
    assert(numeral_value(numeral) == idle_timeout_secs);
}

/// Stall errors of different timeouts differ.
pub proof fn different_timeouts_are_told_apart(
    a: u64,
    b: u64,
    from_a: ProviderError,
    from_b: ProviderError,
)
    requires
        call_ensures(stall_error, (a,), from_a),
        call_ensures(stall_error, (b,), from_b),
        a != b,
    ensures
        from_a->NetworkError_0@ != from_b->NetworkError_0@,
        stall_words(a) != stall_words(b),
{
    decimal_numerals_read_back(a as nat);
    decimal_numerals_read_back(b as nat);
    let before = "Stream stalled: no data-bearing SSE line received for "@;
    let after = "s (keepalive comment frames do not count as progress)"@;
    let x = decimal(a as nat);
    let y = decimal(b as nat);
    if before + x + after == before + y + after {
        assert((before + x + after).len() == before.len() + x.len() + after.len());
        assert((before + y + after).len() == before.len() + y.len() + after.len());
        assert(x =~= (before + x + after).subrange(
            before.len() as int,
            (before.len() + x.len()) as int,
        ));
        assert(y =~= (before + y + after).subrange(
            before.len() as int,
            (before.len() + y.len()) as int,
        ));
    }
}

/// The first line is handed out as it came, whatever it holds and however late; an error or
/// the end that comes in its place ends the stream, and it is never found stalled.
pub proof fn the_first_line_has_no_deadline<E>(
    idle_timeout_secs: u64,
    guard: AwaitingFirst,
    event: FirstEvent<E>,
    step: LineStep<E, HandedFirst>,
)
    requires
        call_ensures(with_data_line_idle_timeout, (idle_timeout_secs,), guard),
        call_ensures(AwaitingFirst::on_first::<E>, (guard, event), step),
    ensures
        !(step is Stalled),
        step is Yield <==> event is Line,
        step is Yield ==> step->Yield_0 == event->Line_0,
        step is Broken <==> event is Broken,
        step is Broken ==> step->Broken_0 == event->Broken_0,
        step is Finish <==> event is End,
{
}

/// Once the first line was handed out, the guard waits for the idle timeout that it was made
/// with, from when the second line was asked for.
pub proof fn the_deadline_runs_from_the_second_line_on<E>(
    idle_timeout_secs: u64,
    guard: AwaitingFirst,
    line: String,
    handed: HandedFirst,
    now: u64,
    watching: Watching,
)
    requires
        call_ensures(with_data_line_idle_timeout, (idle_timeout_secs,), guard),
        call_ensures(
            AwaitingFirst::on_first::<E>,
            (guard, FirstEvent::Line(line)),
            LineStep::<E, HandedFirst>::Yield(line, handed),
        ),
        call_ensures(HandedFirst::resume, (handed, now), watching),
    ensures
        handed.idle_timeout_secs == idle_timeout_secs,
        watching.idle_timeout_secs == idle_timeout_secs,
        watching.deadline == now + idle_timeout_secs * 1_000_000_000,
        nanos(idle_timeout_secs) == idle_timeout_secs * 1_000_000_000,
{
}

/// A line is handed out as it came. Where some character of it is not white space and it does
/// not begin with a colon, the guard then waits for the idle timeout from now; else for the
/// deadline that it waited for before.
pub proof fn a_line_is_handed_out_and_progress_moves_the_deadline<E>(
    guard: Watching,
    line: String,
    now: u64,
    step: LineStep<E, Watching>,
)
    requires
        call_ensures(Watching::on_event::<E>, (guard, LineEvent::Line(line), now), step),
    ensures
        step is Yield,
        step->Yield_0 == line,
        step->Yield_1.idle_timeout_secs == guard.idle_timeout_secs,
        (exists|i: int| 0 <= i < line@.len() && !white_space(#[trigger] line@[i])) && line@[0]
            != ':' ==> step->Yield_1.deadline == now + guard.idle_timeout_secs * 1_000_000_000,
        (forall|i: int| 0 <= i < line@.len() ==> white_space(#[trigger] line@[i])) || line@[0]
            == ':' ==> step->Yield_1 == guard,
{
}

/// What is no line ends the stream: in the error that reading failed with, in its end, or in
/// the stall error of the guard's own timeout.
pub proof fn what_is_no_line_ends_the_stream<E>(
    guard: Watching,
    event: LineEvent<E>,
    now: u64,
    step: LineStep<E, Watching>,
    stall: ProviderError,
)
    requires
        call_ensures(Watching::on_event::<E>, (guard, event, now), step),
        call_ensures(stall_error, (guard.idle_timeout_secs,), stall),
    ensures
        step is Yield <==> event is Line,
        step is Broken <==> event is Broken,
        step is Broken ==> step->Broken_0 == event->Broken_0,
        step is Finish <==> event is End,
        step is Stalled <==> event is TimedOut,
        step is Stalled ==> step->Stalled_0 is NetworkError
            && step->Stalled_0->NetworkError_0@ == stall->NetworkError_0@,
{
}

/// The lines `lines` were taken in by the guards `guards` in turn, each at its time of `nows`.
pub open spec fn taken_in_turn<E>(
    guards: Seq<Watching>,
    lines: Seq<String>,
    nows: Seq<u64>,
) -> bool {
    &&& guards.len() == lines.len() + 1
    &&& nows.len() == lines.len()
    &&& forall|i: int|
        #![trigger lines[i]]
        0 <= i < lines.len() ==> call_ensures(
            Watching::on_event::<E>,
            (guards[i], LineEvent::Line(lines[i]), nows[i]),
            LineStep::<E, Watching>::Yield(lines[i], guards[i + 1]),
        )
}

/// However many lines are taken in, and whatever they hold, the guard waits for its idle
/// timeout after the last line that begins with no colon and is not all white space, or for
/// the deadline that it began with where none is such.
pub proof fn the_last_data_line_sets_the_deadline<E>(
    guards: Seq<Watching>,
    lines: Seq<String>,
    nows: Seq<u64>,
    k: int,
)
    requires
        taken_in_turn::<E>(guards, lines, nows),
        -1 <= k < lines.len(),
        forall|i: int|
            #![trigger lines[i]]
            k < i < lines.len() ==> lines[i]@[0] == ':' || forall|c: int|
                0 <= c < lines[i]@.len() ==> white_space(#[trigger] lines[i]@[c]),
        k >= 0 ==> lines[k]@[0] != ':' && exists|c: int|
            0 <= c < lines[k]@.len() && !white_space(#[trigger] lines[k]@[c]),
    ensures
        guards.last().idle_timeout_secs == guards[0].idle_timeout_secs,
        k >= 0 ==> guards.last().deadline == nows[k] + guards[0].idle_timeout_secs * 1_000_000_000,
        k == -1 ==> guards.last().deadline == guards[0].deadline,
    decreases lines.len(),
{
    let n = lines.len() as int;
    if n > 0 {
        let line = lines[n - 1];
        let step = LineStep::<E, Watching>::Yield(line, guards[n]);
        a_line_is_handed_out_and_progress_moves_the_deadline(
            guards[n - 1],
            line,
            nows[n - 1],
            step,
        );
        let earlier = guards.drop_last();
        let before = lines.drop_last();
        let times = nows.drop_last();
        assert(taken_in_turn::<E>(earlier, before, times)) by {
            assert forall|i: int|
                #![trigger before[i]]
                0 <= i < before.len() implies call_ensures(
                Watching::on_event::<E>,
                (earlier[i], LineEvent::Line(before[i]), times[i]),
                LineStep::<E, Watching>::Yield(before[i], earlier[i + 1]),
            ) by {
                assert(before[i] == lines[i]);
            }
        }
        if k < n - 1 {
            the_last_data_line_sets_the_deadline::<E>(earlier, before, times, k);
        } else {
            lemma_timeout_stays::<E>(earlier, before, times);
        }
    }
}

proof fn lemma_timeout_stays<E>(guards: Seq<Watching>, lines: Seq<String>, nows: Seq<u64>)
    requires
        taken_in_turn::<E>(guards, lines, nows),
    ensures
        guards.last().idle_timeout_secs == guards[0].idle_timeout_secs,
    decreases lines.len(),
{
    let n = lines.len() as int;
    if n > 0 {
        let line = lines[n - 1];
        let step = LineStep::<E, Watching>::Yield(line, guards[n]);
        a_line_is_handed_out_and_progress_moves_the_deadline(
            guards[n - 1],
            line,
            nows[n - 1],
            step,
        );
        let earlier = guards.drop_last();
        let before = lines.drop_last();
        let times = nows.drop_last();
        assert(taken_in_turn::<E>(earlier, before, times)) by {
            assert forall|i: int|
                #![trigger before[i]]
                0 <= i < before.len() implies call_ensures(
                Watching::on_event::<E>,
                (earlier[i], LineEvent::Line(before[i]), times[i]),
                LineStep::<E, Watching>::Yield(before[i], earlier[i + 1]),
            ) by {
                assert(before[i] == lines[i]);
            }
        }
        lemma_timeout_stays::<E>(earlier, before, times);
    }
}

} // verus!
