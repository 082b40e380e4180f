//! What the idle timeout comes to over a whole stream: as events happen to the guard, and as
//! lines arrive.

use crate::error::ErrorView;
use crate::idle::{
    data_bearing, moved_deadline, nanos, stall_words, watch_step, LineEvent, Outcome,
};
use vstd::prelude::*;

verus! {

/// Something that happened to the underlying lines, and when.
pub struct Timed<E> {
    pub event: LineEvent<E>,
    pub at: int,
}

impl<E> Timed<E> {
    /// A line came, and it carries an SSE field.
    pub open spec fn is_progress(self) -> bool {
        self.event matches LineEvent::Line(line) && data_bearing(line@)
    }

    /// A line came, and it is a comment or blank.
    pub open spec fn is_keepalive(self) -> bool {
        self.event matches LineEvent::Line(line) && !data_bearing(line@)
    }
}

/// How far a guard has come: what it has handed out, the deadline it waits for, and how it
/// ended, if it has.
pub struct Run<E> {
    pub handed: Seq<Seq<char>>,
    pub deadline: int,
    pub end: Option<Outcome<E>>,
}

/// The run of a guard that waits for `deadline`, through `events` in turn. What happens
/// after the end is not looked at.
pub open spec fn run<E>(idle_timeout_secs: u64, deadline: int, events: Seq<Timed<E>>) -> Run<E>
    decreases events.len(),
{
    if events.len() == 0 {
        Run { handed: seq![], deadline, end: None }
    } else {
        let before = run(idle_timeout_secs, deadline, events.drop_last());
        let last = events.last();
        if before.end is Some {
            before
        } else {
            match watch_step(idle_timeout_secs, before.deadline, last.event, last.at) {
                Outcome::Yield { line, deadline: moved, .. } => Run {
                    handed: before.handed.push(line),
                    deadline: moved,
                    end: None,
                },
                end => Run { end: Some(end), ..before },
            }
        }
    }
}

/// All of `events` are lines.
pub open spec fn all_lines<E>(events: Seq<Timed<E>>) -> bool {
    forall|i: int| 0 <= i < events.len() ==> (#[trigger] events[i]).event is Line
}

/// All of `events` are keepalives.
pub open spec fn all_keepalives<E>(events: Seq<Timed<E>>) -> bool {
    forall|i: int| 0 <= i < events.len() ==> (#[trigger] events[i]).is_keepalive()
}

/// The guard hands out every line that comes before its end, unchanged and in order, whatever
/// the lines hold and whenever they come. It ends at the first event that is no line, in what
/// that event makes of it, and not before.
pub proof fn guard_hands_out_every_line<E>(
    idle_timeout_secs: u64,
    deadline: int,
    events: Seq<Timed<E>>,
)
    ensures
        ({
            let through = run(idle_timeout_secs, deadline, events);
            let n = through.handed.len();
            &&& n <= events.len()
            &&& forall|i: int|
                0 <= i < n ==> (#[trigger] events[i]).event is Line && through.handed[i]
                    == events[i].event->Line_0@
            &&& through.end is None ==> n == events.len()
            &&& through.end matches Some(end) ==> {
                &&& n < events.len()
                &&& !(events[n as int].event is Line)
                &&& end == watch_step(
                    idle_timeout_secs,
                    through.deadline,
                    events[n as int].event,
                    events[n as int].at,
                )
            }
            &&& through.end is None <==> all_lines(events)
        }),
    decreases events.len(),
{
    if events.len() > 0 {
        let before = events.drop_last();
        guard_hands_out_every_line(idle_timeout_secs, deadline, before);
        let earlier = run(idle_timeout_secs, deadline, before);
        let through = run(idle_timeout_secs, deadline, events);
        let n = through.handed.len();
        assert forall|i: int| 0 <= i < n implies (#[trigger] events[i]).event is Line
            && through.handed[i] == events[i].event->Line_0@ by {
            if i < before.len() {
                assert(before[i] == events[i]);
            }
        }
        if earlier.end is Some {
            assert(before[n as int] == events[n as int]);
        }
        if through.end is Some && all_lines(events) {
            assert(events[n as int].event is Line);
        }
    }
}

/// Runs compose: what comes later goes on from where the earlier events left the guard.
proof fn lemma_run_append<E>(
    idle_timeout_secs: u64,
    deadline: int,
    before: Seq<Timed<E>>,
    after: Seq<Timed<E>>,
)
    requires
        run(idle_timeout_secs, deadline, before).end is None,
    ensures
        ({
            let first = run(idle_timeout_secs, deadline, before);
            let second = run(idle_timeout_secs, first.deadline, after);
            run(idle_timeout_secs, deadline, before + after) == Run {
                handed: first.handed + second.handed,
                ..second
            }
        }),
    decreases after.len(),
{
    let first = run(idle_timeout_secs, deadline, before);
    if after.len() == 0 {
        assert(before + after =~= before);
        assert(first.handed + Seq::<Seq<char>>::empty() =~= first.handed);
    } else {
        let earlier = after.drop_last();
        lemma_run_append(idle_timeout_secs, deadline, before, earlier);
        assert((before + after).drop_last() =~= before + earlier);
        let whole = run(idle_timeout_secs, deadline, before + after);
        let second = run(idle_timeout_secs, first.deadline, after);
        assert(whole.handed =~= first.handed + second.handed);
    }
}

/// A guard that has ended hands out nothing more, whatever comes.
pub proof fn an_ended_guard_stays_ended<E>(
    idle_timeout_secs: u64,
    deadline: int,
    events: Seq<Timed<E>>,
    later: Seq<Timed<E>>,
)
    requires
        run(idle_timeout_secs, deadline, events).end is Some,
    ensures
        run(idle_timeout_secs, deadline, events + later) == run(
            idle_timeout_secs,
            deadline,
            events,
        ),
    decreases later.len(),
{
    if later.len() == 0 {
        assert(events + later =~= events);
    } else {
        an_ended_guard_stays_ended(idle_timeout_secs, deadline, events, later.drop_last());
        assert((events + later).drop_last() =~= events + later.drop_last());
    }
}

/// Keepalives never move the deadline, however many come.
pub proof fn keepalives_leave_the_deadline<E>(
    idle_timeout_secs: u64,
    deadline: int,
    keepalives: Seq<Timed<E>>,
)
    requires
        all_keepalives(keepalives),
    ensures
        run(idle_timeout_secs, deadline, keepalives).end is None,
        run(idle_timeout_secs, deadline, keepalives).deadline == deadline,
    decreases keepalives.len(),
{
    if keepalives.len() > 0 {
        assert(keepalives.last().is_keepalive());
        keepalives_leave_the_deadline(idle_timeout_secs, deadline, keepalives.drop_last());
    }
}

/// The deadline is the idle timeout after the last data-bearing line, no matter what came
/// before it and how many keepalives came since.
pub proof fn deadline_follows_the_last_data_line<E>(
    idle_timeout_secs: u64,
    deadline: int,
    before: Seq<Timed<E>>,
    data: Timed<E>,
    keepalives: Seq<Timed<E>>,
)
    requires
        all_lines(before),
        data.is_progress(),
        all_keepalives(keepalives),
    ensures
        run(idle_timeout_secs, deadline, before.push(data) + keepalives).end is None,
        run(idle_timeout_secs, deadline, before.push(data) + keepalives).deadline == data.at
            + nanos(idle_timeout_secs),
{
    let events = before.push(data);
    guard_hands_out_every_line(idle_timeout_secs, deadline, events);
    assert(events.drop_last() =~= before);
    guard_hands_out_every_line(idle_timeout_secs, deadline, before);
    lemma_run_append(idle_timeout_secs, deadline, events, keepalives);
    keepalives_leave_the_deadline(
        idle_timeout_secs,
        data.at + nanos(idle_timeout_secs),
        keepalives,
    );
}

/// When the timer fires, the stream ends in the stall error, with every line that came
/// handed out, whatever the lines were.
pub proof fn fired_timer_ends_in_the_stall_error<E>(
    idle_timeout_secs: u64,
    deadline: int,
    lines: Seq<Timed<E>>,
    timeout: Timed<E>,
)
    requires
        all_lines(lines),
        timeout.event is TimedOut,
    ensures
        run(idle_timeout_secs, deadline, lines.push(timeout)).end == Some(
            Outcome::<E>::Stalled(ErrorView::NetworkError(stall_words(idle_timeout_secs))),
        ),
        run(idle_timeout_secs, deadline, lines.push(timeout)).handed == run(
            idle_timeout_secs,
            deadline,
            lines,
        ).handed,
        run(idle_timeout_secs, deadline, lines).handed.len() == lines.len(),
{
    guard_hands_out_every_line(idle_timeout_secs, deadline, lines);
    assert(lines.push(timeout).drop_last() =~= lines);
}

/// A provider that wedges while it goes on sending keepalives is found out: however many
/// come after its last data-bearing line, the deadline has passed once the idle timeout has,
/// and when the timer fires the stream ends in the stall error.
pub proof fn wedged_stream_is_found_out<E>(
    idle_timeout_secs: u64,
    deadline: int,
    before: Seq<Timed<E>>,
    data: Timed<E>,
    keepalives: Seq<Timed<E>>,
    timeout: Timed<E>,
)
    requires
        all_lines(before),
        data.is_progress(),
        all_keepalives(keepalives),
        timeout.event is TimedOut,
        timeout.at >= data.at + nanos(idle_timeout_secs),
    ensures
        run(idle_timeout_secs, deadline, before.push(data) + keepalives).deadline <= timeout.at,
        run(idle_timeout_secs, deadline, (before.push(data) + keepalives).push(timeout)).end
            == Some(
            Outcome::<E>::Stalled(ErrorView::NetworkError(stall_words(idle_timeout_secs))),
        ),
{
    let lines = before.push(data) + keepalives;
    deadline_follows_the_last_data_line(idle_timeout_secs, deadline, before, data, keepalives);
    assert(all_lines(lines)) by {
        assert forall|i: int| 0 <= i < lines.len() implies (#[trigger] lines[i]).event is Line by {
            if i > before.len() {
                assert(keepalives[i - before.len() - 1].is_keepalive());
            }
        }
    }
    fired_timer_ends_in_the_stall_error(idle_timeout_secs, deadline, lines, timeout);
}

/// A provider that sends nothing but keepalives after its first line is found out too: the
/// deadline that was set when the second line was asked for stands.
pub proof fn stream_wedged_after_its_first_line_is_found_out<E>(
    idle_timeout_secs: u64,
    start: int,
    keepalives: Seq<Timed<E>>,
    timeout: Timed<E>,
)
    requires
        all_keepalives(keepalives),
        timeout.event is TimedOut,
        timeout.at >= start + nanos(idle_timeout_secs),
    ensures
        run(idle_timeout_secs, start + nanos(idle_timeout_secs), keepalives).deadline
            <= timeout.at,
        run(idle_timeout_secs, start + nanos(idle_timeout_secs), keepalives.push(timeout)).end
            == Some(
            Outcome::<E>::Stalled(ErrorView::NetworkError(stall_words(idle_timeout_secs))),
        ),
{
    let deadline = start + nanos(idle_timeout_secs);
    keepalives_leave_the_deadline(idle_timeout_secs, deadline, keepalives);
    assert(all_lines(keepalives)) by {
        assert forall|i: int| 0 <= i < keepalives.len() implies (
        #[trigger] keepalives[i]).event is Line by {
            assert(keepalives[i].is_keepalive());
        }
    }
    fired_timer_ends_in_the_stall_error(idle_timeout_secs, deadline, keepalives, timeout);
}

/// The timer fires no earlier than the deadline that the guard waits for.
pub open spec fn timer_keeps_time<E>(
    idle_timeout_secs: u64,
    deadline: int,
    events: Seq<Timed<E>>,
) -> bool {
    forall|i: int|
        #![trigger events[i]]
        0 <= i < events.len() && events[i].event is TimedOut ==> events[i].at >= run(
            idle_timeout_secs,
            deadline,
            events.take(i),
        ).deadline
}

/// Events come in the order of their times, none before `start`.
pub open spec fn in_order<E>(start: int, events: Seq<Timed<E>>) -> bool {
    &&& forall|i: int| 0 <= i < events.len() ==> start <= (#[trigger] events[i]).at
    &&& forall|i: int, j: int|
        0 <= i <= j < events.len() ==> (#[trigger] events[i]).at <= (#[trigger] events[j]).at
}

proof fn lemma_in_order_drop_last<E>(start: int, events: Seq<Timed<E>>)
    requires
        in_order(start, events),
        events.len() > 0,
    ensures
        in_order(start, events.drop_last()),
{
    let before = events.drop_last();
    assert forall|i: int| 0 <= i < before.len() implies start <= (#[trigger] before[i]).at by {
        assert(start <= events[i].at);
    }
    assert forall|i: int, j: int| 0 <= i <= j < before.len() implies (#[trigger] before[i]).at <= (
    #[trigger] before[j]).at by {
        assert(events[i].at <= events[j].at);
    }
}

/// At every event the stream has made progress within the idle timeout: since `start`, or
/// since some data-bearing line.
pub open spec fn live<E>(idle_timeout_secs: u64, start: int, events: Seq<Timed<E>>) -> bool {
    forall|i: int| 0 <= i < events.len() ==> #[trigger] recent(idle_timeout_secs, start, events, i)
}

/// Less than the idle timeout before event `i` the guard started or a data-bearing line
/// came.
pub open spec fn recent<E>(
    idle_timeout_secs: u64,
    start: int,
    events: Seq<Timed<E>>,
    i: int,
) -> bool {
    ||| events[i].at < start + nanos(idle_timeout_secs)
    ||| exists|j: int|
        #![trigger events[j]]
        0 <= j < i && events[j].is_progress() && events[i].at < events[j].at + nanos(
            idle_timeout_secs,
        )
}

/// The deadline never comes before the idle timeout after the start, nor before the idle
/// timeout after any data-bearing line.
proof fn lemma_deadline_covers<E>(idle_timeout_secs: u64, start: int, events: Seq<Timed<E>>)
    requires
        in_order(start, events),
        run(idle_timeout_secs, start + nanos(idle_timeout_secs), events).end is None,
    ensures
        run(idle_timeout_secs, start + nanos(idle_timeout_secs), events).deadline >= start + nanos(
            idle_timeout_secs,
        ),
        forall|j: int|
            0 <= j < events.len() && (#[trigger] events[j]).is_progress() ==> run(
                idle_timeout_secs,
                start + nanos(idle_timeout_secs),
                events,
            ).deadline >= events[j].at + nanos(idle_timeout_secs),
    decreases events.len(),
{
    if events.len() > 0 {
        let before = events.drop_last();
        lemma_in_order_drop_last(start, events);
        lemma_deadline_covers(idle_timeout_secs, start, before);
        assert forall|j: int|
            0 <= j < events.len() && (#[trigger] events[j]).is_progress() implies run(
            idle_timeout_secs,
            start + nanos(idle_timeout_secs),
            events,
        ).deadline >= events[j].at + nanos(idle_timeout_secs) by {
            assert(events[j].at <= events.last().at);
            if j < before.len() {
                assert(before[j].is_progress());
            }
        }
    }
}

/// A slow stream that lives is not killed: as long as data-bearing lines come within the
/// idle timeout of each other, with any keepalives between them, it is not ended as stalled.
pub proof fn live_stream_is_never_stalled<E>(
    idle_timeout_secs: u64,
    start: int,
    events: Seq<Timed<E>>,
)
    requires
        in_order(start, events),
        live(idle_timeout_secs, start, events),
        timer_keeps_time(idle_timeout_secs, start + nanos(idle_timeout_secs), events),
    ensures
        !(run(idle_timeout_secs, start + nanos(idle_timeout_secs), events).end matches Some(
            Outcome::Stalled(_),
        )),
    decreases events.len(),
{
    let deadline = start + nanos(idle_timeout_secs);
    if events.len() > 0 {
        let before = events.drop_last();
        let k = events.len() - 1;
        assert(events.take(k) =~= before);
        lemma_in_order_drop_last(start, events);
        assert(live(idle_timeout_secs, start, before)) by {
            assert forall|i: int| 0 <= i < before.len() implies #[trigger] recent(
                idle_timeout_secs,
                start,
                before,
                i,
            ) by {
                assert(recent(idle_timeout_secs, start, events, i));
                if !(events[i].at < start + nanos(idle_timeout_secs)) {
                    let j = choose|j: int|
                        #![trigger events[j]]
                        0 <= j < i && events[j].is_progress() && events[i].at < events[j].at
                            + nanos(idle_timeout_secs);
                    assert(before[j].is_progress());
                }
            }
        }
        assert(timer_keeps_time(idle_timeout_secs, deadline, before)) by {
            assert forall|i: int|
                #![trigger before[i]]
                0 <= i < before.len() && before[i].event is TimedOut implies before[i].at >= run(
                idle_timeout_secs,
                deadline,
                before.take(i),
            ).deadline by {
                assert(before.take(i) =~= events.take(i));
                assert(events[i].event is TimedOut);
            }
        }
        live_stream_is_never_stalled(idle_timeout_secs, start, before);
        if run(idle_timeout_secs, deadline, before).end is None && events[k].event is TimedOut {
            lemma_deadline_covers(idle_timeout_secs, start, before);
            assert(recent(idle_timeout_secs, start, events, k));
            if !(events[k].at < start + nanos(idle_timeout_secs)) {
                let j = choose|j: int|
                    #![trigger events[j]]
                    0 <= j < k && events[j].is_progress() && events[k].at < events[j].at + nanos(
                        idle_timeout_secs,
                    );
                assert(before[j].is_progress());
            }
            assert(false);
        }
    }
}

/// What happens to a guard whose consumer is always waiting, told by what arrives and when.
/// Up to its deadline a guard takes the next arrival; when that comes later, or nothing comes
/// until `until`, the timer fires at the deadline. Nothing is taken after the end.
pub open spec fn happenings<E>(
    idle_timeout_secs: u64,
    deadline: int,
    arrivals: Seq<Timed<E>>,
    until: int,
) -> Seq<Timed<E>>
    decreases arrivals.len(),
{
    if next_at(arrivals, until, 0) > deadline {
        seq![Timed { event: LineEvent::TimedOut, at: deadline }]
    } else if arrivals.len() == 0 {
        seq![]
    } else {
        match arrivals[0].event {
            LineEvent::Line(line) => seq![arrivals[0]] + happenings(
                idle_timeout_secs,
                moved_deadline(deadline, nanos(idle_timeout_secs), line@, arrivals[0].at),
                arrivals.drop_first(),
                until,
            ),
            _ => seq![arrivals[0]],
        }
    }
}

/// When arrival `i` comes. After the last one nothing comes until `until`.
pub open spec fn next_at<E>(arrivals: Seq<Timed<E>>, until: int, i: int) -> int {
    if i < arrivals.len() {
        arrivals[i].at
    } else {
        until
    }
}

/// The run of a guard that was asked for its second line at `start`, told by what arrives.
pub open spec fn watched<E>(
    idle_timeout_secs: u64,
    start: int,
    arrivals: Seq<Timed<E>>,
    until: int,
) -> Run<E> {
    let deadline = start + nanos(idle_timeout_secs);
    run(idle_timeout_secs, deadline, happenings(idle_timeout_secs, deadline, arrivals, until))
}

/// What arrives is lines, their end or an error: the timer is the guard's own.
pub open spec fn no_timer<E>(arrivals: Seq<Timed<E>>) -> bool {
    forall|i: int| 0 <= i < arrivals.len() ==> !((#[trigger] arrivals[i]).event is TimedOut)
}

proof fn lemma_no_timer_front<E>(arrivals: Seq<Timed<E>>)
    requires
        no_timer(arrivals),
        arrivals.len() > 0,
    ensures
        no_timer(arrivals.drop_first()),
{
    let rest = arrivals.drop_first();
    assert forall|k: int| 0 <= k < rest.len() implies !((
    #[trigger] rest[k]).event is TimedOut) by {
        assert(!(arrivals[k + 1].event is TimedOut));
    }
}

/// When the last data-bearing line came, or `start` where none has.
pub open spec fn last_progress<E>(start: int, arrivals: Seq<Timed<E>>) -> int
    decreases arrivals.len(),
{
    if arrivals.len() == 0 {
        start
    } else if arrivals.last().is_progress() {
        arrivals.last().at
    } else {
        last_progress(start, arrivals.drop_last())
    }
}

/// Arrival `i` comes later than the idle timeout after the last progress before it.
pub open spec fn late<E>(
    idle_timeout_secs: u64,
    start: int,
    arrivals: Seq<Timed<E>>,
    until: int,
    i: int,
) -> bool {
    next_at(arrivals, until, i) > last_progress(start, arrivals.take(i)) + nanos(idle_timeout_secs)
}

/// Arrival `i` is the first that is late, and what came before it is lines.
pub open spec fn first_late<E>(
    idle_timeout_secs: u64,
    start: int,
    arrivals: Seq<Timed<E>>,
    until: int,
    i: int,
) -> bool {
    &&& 0 <= i <= arrivals.len()
    &&& all_lines(arrivals.take(i))
    &&& late(idle_timeout_secs, start, arrivals, until, i)
    &&& forall|j: int| 0 <= j < i ==> !#[trigger] late(idle_timeout_secs, start, arrivals, until, j)
}

/// Where the progress stands after one arrival.
spec fn moved_start<E>(start: int, arrival: Timed<E>) -> int {
    if arrival.is_progress() {
        arrival.at
    } else {
        start
    }
}

proof fn lemma_last_progress_front<E>(start: int, arrivals: Seq<Timed<E>>)
    requires
        arrivals.len() > 0,
    ensures
        last_progress(start, arrivals) == last_progress(
            moved_start(start, arrivals[0]),
            arrivals.drop_first(),
        ),
    decreases arrivals.len(),
{
    if arrivals.len() == 1 {
        assert(arrivals.drop_last() =~= seq![]);
        assert(arrivals.drop_first() =~= seq![]);
    } else {
        lemma_last_progress_front(start, arrivals.drop_last());
        assert(arrivals.drop_last().drop_first() =~= arrivals.drop_first().drop_last());
    }
}

/// Being late is the same seen from after the first arrival.
proof fn lemma_late_front<E>(
    idle_timeout_secs: u64,
    start: int,
    arrivals: Seq<Timed<E>>,
    until: int,
    i: int,
)
    requires
        0 < i <= arrivals.len(),
    ensures
        late(idle_timeout_secs, start, arrivals, until, i) == late(
            idle_timeout_secs,
            moved_start(start, arrivals[0]),
            arrivals.drop_first(),
            until,
            i - 1,
        ),
{
    lemma_last_progress_front(start, arrivals.take(i));
    assert(arrivals.take(i).drop_first() =~= arrivals.drop_first().take(i - 1));
}

/// One line that comes in time goes before the rest of the run.
proof fn lemma_run_front<E>(
    idle_timeout_secs: u64,
    deadline: int,
    first: Timed<E>,
    rest: Seq<Timed<E>>,
)
    requires
        first.event is Line,
    ensures
        ({
            let line = first.event->Line_0@;
            let moved = moved_deadline(deadline, nanos(idle_timeout_secs), line, first.at);
            let after = run(idle_timeout_secs, moved, rest);
            run(idle_timeout_secs, deadline, seq![first] + rest) == Run {
                handed: seq![line] + after.handed,
                ..after
            }
        }),
{
    reveal_with_fuel(run, 2);
    let one = seq![first];
    assert(one.drop_last() =~= seq![]);
    assert(one.last() == first);
    let begun = run(idle_timeout_secs, deadline, one);
    assert(begun.handed =~= seq![first.event->Line_0@]);
    lemma_run_append(idle_timeout_secs, deadline, one, rest);
}

/// One event that is no line is the whole run.
proof fn lemma_run_one<E>(idle_timeout_secs: u64, deadline: int, event: Timed<E>)
    requires
        !(event.event is Line),
    ensures
        run(idle_timeout_secs, deadline, seq![event]) == (Run {
            handed: seq![],
            deadline,
            end: Some(watch_step(idle_timeout_secs, deadline, event.event, event.at)),
        }),
{
    reveal_with_fuel(run, 2);
    assert(seq![event].drop_last() =~= seq![]);
    assert(seq![event].last() == event);
}

/// The timer fires at the very deadline that the guard then waits for.
pub proof fn timer_fires_at_the_deadline<E>(
    idle_timeout_secs: u64,
    deadline: int,
    arrivals: Seq<Timed<E>>,
    until: int,
    i: int,
)
    requires
        no_timer(arrivals),
        0 <= i < happenings(idle_timeout_secs, deadline, arrivals, until).len(),
        happenings(idle_timeout_secs, deadline, arrivals, until)[i].event is TimedOut,
    ensures
        happenings(idle_timeout_secs, deadline, arrivals, until)[i].at == run(
            idle_timeout_secs,
            deadline,
            happenings(idle_timeout_secs, deadline, arrivals, until).take(i),
        ).deadline,
    decreases arrivals.len(),
{
    let events = happenings(idle_timeout_secs, deadline, arrivals, until);
    if i == 0 {
        assert(events.take(0) =~= seq![]);
        if next_at(arrivals, until, 0) <= deadline {
            assert(events[0] == arrivals[0]);
        }
    } else {
        let first = arrivals[0];
        let rest = arrivals.drop_first();
        let moved = moved_deadline(
            deadline,
            nanos(idle_timeout_secs),
            first.event->Line_0@,
            first.at,
        );
        let after = happenings(idle_timeout_secs, moved, rest, until);
        assert(events == seq![first] + after);
        assert(events[i] == after[i - 1]);
        lemma_no_timer_front(arrivals);
        timer_fires_at_the_deadline(idle_timeout_secs, moved, rest, until, i - 1);
        assert(events.take(i) =~= seq![first] + after.take(i - 1));
        lemma_run_front(idle_timeout_secs, deadline, first, after.take(i - 1));
    }
}

/// Where an arrival is the first late one, the timer fires at the idle timeout after the last
/// progress, the lines before it are what the guard hands out, and the stream ends in the
/// stall error.
pub proof fn late_arrival_stalls_the_stream<E>(
    idle_timeout_secs: u64,
    start: int,
    arrivals: Seq<Timed<E>>,
    until: int,
    i: int,
)
    requires
        first_late(idle_timeout_secs, start, arrivals, until, i),
    ensures
        happenings(idle_timeout_secs, start + nanos(idle_timeout_secs), arrivals, until)
            == arrivals.take(i).push(
            Timed {
                event: LineEvent::TimedOut,
                at: last_progress(start, arrivals.take(i)) + nanos(idle_timeout_secs),
            },
        ),
        watched(idle_timeout_secs, start, arrivals, until).end == Some(
            Outcome::<E>::Stalled(ErrorView::NetworkError(stall_words(idle_timeout_secs))),
        ),
        watched(idle_timeout_secs, start, arrivals, until).handed.len() == i,
        forall|k: int|
            0 <= k < i ==> #[trigger] watched(idle_timeout_secs, start, arrivals, until).handed[k]
                == arrivals[k].event->Line_0@,
{
    lemma_late_arrival_fires_the_timer(idle_timeout_secs, start, arrivals, until, i);
    let deadline = start + nanos(idle_timeout_secs);
    let lines = arrivals.take(i);
    let timeout = Timed {
        event: LineEvent::<E>::TimedOut,
        at: last_progress(start, lines) + nanos(idle_timeout_secs),
    };
    fired_timer_ends_in_the_stall_error(idle_timeout_secs, deadline, lines, timeout);
    guard_hands_out_every_line(idle_timeout_secs, deadline, lines);
    assert forall|k: int| 0 <= k < i implies #[trigger] watched(
        idle_timeout_secs,
        start,
        arrivals,
        until,
    ).handed[k] == arrivals[k].event->Line_0@ by {
        assert(lines[k].event is Line);
        assert(run(idle_timeout_secs, deadline, lines).handed[k] == lines[k].event->Line_0@);
    }
}

proof fn lemma_late_arrival_fires_the_timer<E>(
    idle_timeout_secs: u64,
    start: int,
    arrivals: Seq<Timed<E>>,
    until: int,
    i: int,
)
    requires
        first_late(idle_timeout_secs, start, arrivals, until, i),
    ensures
        happenings(idle_timeout_secs, start + nanos(idle_timeout_secs), arrivals, until)
            == arrivals.take(i).push(
            Timed {
                event: LineEvent::TimedOut,
                at: last_progress(start, arrivals.take(i)) + nanos(idle_timeout_secs),
            },
        ),
    decreases arrivals.len(),
{
    let deadline = start + nanos(idle_timeout_secs);
    assert(arrivals.take(0) =~= seq![]);
    if i == 0 {
        assert(happenings(idle_timeout_secs, deadline, arrivals, until) =~= arrivals.take(0).push(
            Timed { event: LineEvent::TimedOut, at: deadline },
        ));
    } else {
        let first = arrivals[0];
        let rest = arrivals.drop_first();
        let moved = moved_start(start, first);
        assert(arrivals.take(i)[0] == first);
        assert(first.event is Line);
        assert(!late(idle_timeout_secs, start, arrivals, until, 0));
        lemma_late_front(idle_timeout_secs, start, arrivals, until, i);
        assert(rest.take(i - 1) =~= arrivals.take(i).drop_first());
        assert(first_late(idle_timeout_secs, moved, rest, until, i - 1)) by {
            assert forall|k: int| 0 <= k < i - 1 implies (
            #[trigger] rest.take(i - 1)[k]).event is Line by {
                assert(arrivals.take(i)[k + 1].event is Line);
            }
            assert forall|j: int| 0 <= j < i - 1 implies !#[trigger] late(
                idle_timeout_secs,
                moved,
                rest,
                until,
                j,
            ) by {
                assert(!late(idle_timeout_secs, start, arrivals, until, j + 1));
                lemma_late_front(idle_timeout_secs, start, arrivals, until, j + 1);
            }
        }
        lemma_late_arrival_fires_the_timer(idle_timeout_secs, moved, rest, until, i - 1);
        lemma_last_progress_front(start, arrivals.take(i));
        let timeout = Timed {
            event: LineEvent::<E>::TimedOut,
            at: last_progress(start, arrivals.take(i)) + nanos(idle_timeout_secs),
        };
        assert(happenings(idle_timeout_secs, deadline, arrivals, until) =~= arrivals.take(i).push(
            timeout,
        ));
    }
}

/// A stream stalls if and only if some arrival, or the silence after the last one, is later
/// than the idle timeout after the last progress. Keepalives are no progress.
pub proof fn stream_stalls_iff_an_arrival_is_late<E>(
    idle_timeout_secs: u64,
    start: int,
    arrivals: Seq<Timed<E>>,
    until: int,
)
    requires
        no_timer(arrivals),
    ensures
        (watched(idle_timeout_secs, start, arrivals, until).end matches Some(Outcome::Stalled(_)))
            <==> exists|i: int| first_late(idle_timeout_secs, start, arrivals, until, i),
    decreases arrivals.len(),
{
    let deadline = start + nanos(idle_timeout_secs);
    let whole = watched(idle_timeout_secs, start, arrivals, until);
    if exists|i: int| first_late(idle_timeout_secs, start, arrivals, until, i) {
        let i = choose|i: int| first_late(idle_timeout_secs, start, arrivals, until, i);
        late_arrival_stalls_the_stream(idle_timeout_secs, start, arrivals, until, i);
    }
    if whole.end matches Some(Outcome::Stalled(_)) {
        assert(arrivals.take(0) =~= seq![]);
        if late(idle_timeout_secs, start, arrivals, until, 0) {
            assert(first_late(idle_timeout_secs, start, arrivals, until, 0));
        } else {
            assert(arrivals.len() > 0);
            let first = arrivals[0];
            assert(!(first.event is TimedOut));
            if !(first.event is Line) {
                lemma_run_one(idle_timeout_secs, deadline, first);
            }
            let rest = arrivals.drop_first();
            let moved = moved_start(start, first);
            let after = happenings(
                idle_timeout_secs,
                moved + nanos(idle_timeout_secs),
                rest,
                until,
            );
            lemma_run_front(idle_timeout_secs, deadline, first, after);
            lemma_no_timer_front(arrivals);
            stream_stalls_iff_an_arrival_is_late(idle_timeout_secs, moved, rest, until);
            let k = choose|k: int| first_late(idle_timeout_secs, moved, rest, until, k);
            let i = k + 1;
            lemma_late_front(idle_timeout_secs, start, arrivals, until, i);
            assert forall|j: int| 0 <= j < i implies (#[trigger] arrivals.take(
                i,
            )[j]).event is Line by {
                if j > 0 {
                    assert(rest.take(k)[j - 1].event is Line);
                }
            }
            assert forall|j: int| 0 <= j < i implies !#[trigger] late(
                idle_timeout_secs,
                start,
                arrivals,
                until,
                j,
            ) by {
                if j > 0 {
                    assert(!late(idle_timeout_secs, moved, rest, until, j - 1));
                    lemma_late_front(idle_timeout_secs, start, arrivals, until, j);
                }
            }
            assert(first_late(idle_timeout_secs, start, arrivals, until, i));
        }
    }
}

/// `through` ended as stalled.
pub open spec fn stalled<E>(through: Run<E>) -> bool {
    through.end matches Some(Outcome::Stalled(_))
}

/// A longer idle timeout never hands out less: what a shorter one hands out of the same
/// arrivals begins what the longer one does. Where the shorter one does not find a stall, the
/// longer one changes nothing.
pub proof fn longer_timeout_hands_out_no_less<E>(
    shorter_secs: u64,
    longer_secs: u64,
    start: int,
    arrivals: Seq<Timed<E>>,
    until: int,
)
    requires
        shorter_secs <= longer_secs,
        no_timer(arrivals),
    ensures
        watched(shorter_secs, start, arrivals, until).handed.is_prefix_of(
            watched(longer_secs, start, arrivals, until).handed,
        ),
        !stalled(watched(shorter_secs, start, arrivals, until)) ==> {
            &&& watched(longer_secs, start, arrivals, until).handed == watched(
                shorter_secs,
                start,
                arrivals,
                until,
            ).handed
            &&& watched(longer_secs, start, arrivals, until).end == watched(
                shorter_secs,
                start,
                arrivals,
                until,
            ).end
        },
{
    lemma_later_deadline_hands_out_no_less(
        shorter_secs,
        longer_secs,
        start + nanos(shorter_secs),
        start + nanos(longer_secs),
        arrivals,
        until,
    );
}

proof fn lemma_later_deadline_hands_out_no_less<E>(
    shorter_secs: u64,
    longer_secs: u64,
    sooner: int,
    later: int,
    arrivals: Seq<Timed<E>>,
    until: int,
)
    requires
        shorter_secs <= longer_secs,
        sooner <= later,
        no_timer(arrivals),
    ensures
        ({
            let shorter = run(
                shorter_secs,
                sooner,
                happenings(shorter_secs, sooner, arrivals, until),
            );
            let longer = run(longer_secs, later, happenings(longer_secs, later, arrivals, until));
            &&& shorter.handed.is_prefix_of(longer.handed)
            &&& !stalled(shorter) ==> longer.handed == shorter.handed && longer.end == shorter.end
        }),
    decreases arrivals.len(),
{
    if next_at(arrivals, until, 0) > sooner {
        lemma_run_one(
            shorter_secs,
            sooner,
            Timed { event: LineEvent::<E>::TimedOut, at: sooner },
        );
    } else if arrivals.len() > 0 {
        let first = arrivals[0];
        let rest = arrivals.drop_first();
        assert(!(first.event is TimedOut));
        match first.event {
            LineEvent::Line(line) => {
                let sooner_next = moved_deadline(sooner, nanos(shorter_secs), line@, first.at);
                let later_next = moved_deadline(later, nanos(longer_secs), line@, first.at);
                lemma_no_timer_front(arrivals);
                lemma_later_deadline_hands_out_no_less(
                    shorter_secs,
                    longer_secs,
                    sooner_next,
                    later_next,
                    rest,
                    until,
                );
                lemma_run_front(
                    shorter_secs,
                    sooner,
                    first,
                    happenings(shorter_secs, sooner_next, rest, until),
                );
                lemma_run_front(
                    longer_secs,
                    later,
                    first,
                    happenings(longer_secs, later_next, rest, until),
                );
            },
            _ => {
                lemma_run_one(shorter_secs, sooner, first);
                lemma_run_one(longer_secs, later, first);
            },
        }
    }
}

/// An extra keepalive changes nothing but itself: wherever it comes in, the stream waits for
/// the same deadline and ends the same way, and hands out the same lines, with it among them
/// where it is taken.
pub proof fn extra_keepalive_changes_nothing_else<E>(
    idle_timeout_secs: u64,
    start: int,
    arrivals: Seq<Timed<E>>,
    until: int,
    p: int,
    keepalive: Timed<E>,
)
    requires
        0 <= p <= arrivals.len(),
        keepalive.is_keepalive(),
        keepalive.at <= next_at(arrivals, until, p),
    ensures
        ({
            let without = watched(idle_timeout_secs, start, arrivals, until);
            let with = watched(idle_timeout_secs, start, arrivals.insert(p, keepalive), until);
            &&& with.deadline == without.deadline
            &&& with.end == without.end
            &&& {
                ||| with.handed == without.handed
                ||| p <= without.handed.len() && with.handed == without.handed.insert(
                    p,
                    keepalive.event->Line_0@,
                )
            }
        }),
{
    lemma_extra_keepalive(
        idle_timeout_secs,
        start + nanos(idle_timeout_secs),
        arrivals,
        until,
        p,
        keepalive,
    );
}

proof fn lemma_extra_keepalive<E>(
    idle_timeout_secs: u64,
    deadline: int,
    arrivals: Seq<Timed<E>>,
    until: int,
    p: int,
    keepalive: Timed<E>,
)
    requires
        0 <= p <= arrivals.len(),
        keepalive.is_keepalive(),
        keepalive.at <= next_at(arrivals, until, p),
    ensures
        ({
            let more = arrivals.insert(p, keepalive);
            let without = run(
                idle_timeout_secs,
                deadline,
                happenings(idle_timeout_secs, deadline, arrivals, until),
            );
            let with = run(
                idle_timeout_secs,
                deadline,
                happenings(idle_timeout_secs, deadline, more, until),
            );
            &&& with.deadline == without.deadline
            &&& with.end == without.end
            &&& {
                ||| with.handed == without.handed
                ||| p <= without.handed.len() && with.handed == without.handed.insert(
                    p,
                    keepalive.event->Line_0@,
                )
            }
        }),
    decreases arrivals.len(),
{
    let more = arrivals.insert(p, keepalive);
    let chars = keepalive.event->Line_0@;
    if p == 0 {
        assert(more[0] == keepalive);
        assert(more.drop_first() =~= arrivals);
        if keepalive.at <= deadline {
            let after = happenings(idle_timeout_secs, deadline, arrivals, until);
            lemma_run_front(idle_timeout_secs, deadline, keepalive, after);
            let without = run(idle_timeout_secs, deadline, after);
            assert(seq![chars] + without.handed =~= without.handed.insert(0, chars));
        }
    } else {
        let first = arrivals[0];
        let rest = arrivals.drop_first();
        assert(more[0] == first);
        if first.at <= deadline {
            match first.event {
                LineEvent::Line(line) => {
                    let moved = moved_deadline(
                        deadline,
                        nanos(idle_timeout_secs),
                        line@,
                        first.at,
                    );
                    assert(more.drop_first() =~= rest.insert(p - 1, keepalive));
                    lemma_extra_keepalive(
                        idle_timeout_secs,
                        moved,
                        rest,
                        until,
                        p - 1,
                        keepalive,
                    );
                    let after = happenings(idle_timeout_secs, moved, rest, until);
                    let after_more = happenings(
                        idle_timeout_secs,
                        moved,
                        rest.insert(p - 1, keepalive),
                        until,
                    );
                    lemma_run_front(idle_timeout_secs, deadline, first, after);
                    lemma_run_front(idle_timeout_secs, deadline, first, after_more);
                    let handed = run(idle_timeout_secs, moved, after).handed;
                    if p - 1 <= handed.len() {
                        assert(seq![line@] + handed.insert(p - 1, chars) =~= (seq![line@]
                            + handed).insert(p, chars));
                    }
                },
                _ => {},
            }
        }
    }
}

} // verus!
