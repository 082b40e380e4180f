use openai_compat::error::ProviderError;
use openai_compat::idle::{
    is_data_bearing_line, stall_error, with_data_line_idle_timeout, FirstEvent, HandedFirst,
    LineEvent, LineStep, Watching, STREAM_IDLE_TIMEOUT_SECS,
};

const SEC: u64 = 1_000_000_000;
const MILLI: u64 = 1_000_000;

fn handed_first(idle_timeout_secs: u64, line: &str) -> HandedFirst {
    let guard = with_data_line_idle_timeout(idle_timeout_secs);
    match guard.on_first::<String>(FirstEvent::Line(line.to_string())) {
        LineStep::Yield(handed, next) => {
            assert_eq!(handed, line);
            next
        }
        _ => panic!("the first line should be handed out"),
    }
}

fn take_line(guard: Watching, line: &str, now: u64) -> Watching {
    match guard.on_event::<String>(LineEvent::Line(line.to_string()), now) {
        LineStep::Yield(handed, next) => {
            assert_eq!(handed, line);
            next
        }
        _ => panic!("the line should be handed out"),
    }
}

#[test]
fn the_usual_idle_timeout_is_two_minutes() {
    assert_eq!(STREAM_IDLE_TIMEOUT_SECS, 120);
}

#[test]
fn fields_bear_data_and_comments_and_separators_do_not() {
    assert!(is_data_bearing_line("data: {\"id\":1}"));
    assert!(is_data_bearing_line("event: message"));
    assert!(is_data_bearing_line("data"));
    assert!(!is_data_bearing_line(": ping"));
    assert!(!is_data_bearing_line(":"));
    assert!(!is_data_bearing_line(""));
    assert!(!is_data_bearing_line("  \t\r"));
    assert!(is_data_bearing_line(" : not a comment"));
}

#[test]
fn the_stall_error_names_the_timeout() {
    assert_eq!(
        stall_error(1),
        ProviderError::NetworkError(
            "Stream stalled: no data-bearing SSE line received for 1s (keepalive comment frames \
             do not count as progress)"
                .to_string()
        )
    );
    assert_eq!(
        stall_error(120),
        ProviderError::NetworkError(
            "Stream stalled: no data-bearing SSE line received for 120s (keepalive comment \
             frames do not count as progress)"
                .to_string()
        )
    );
}

#[test]
fn the_deadline_starts_when_the_second_line_is_asked_for() {
    let guard = handed_first(1, ": ping").resume(7 * SEC);
    assert_eq!(guard.deadline, 8 * SEC as u128);
    assert_eq!(guard.idle_timeout_secs, 1);
}

#[test]
fn no_first_line_ends_the_stream() {
    let guard = with_data_line_idle_timeout(1);
    assert!(matches!(guard.on_first::<String>(FirstEvent::End), LineStep::Finish));
    let guard = with_data_line_idle_timeout(1);
    match guard.on_first(FirstEvent::Broken("reset".to_string())) {
        LineStep::Broken(error) => assert_eq!(error, "reset"),
        _ => panic!("the error should be passed on"),
    }
}

#[test]
fn later_ends_and_errors_are_passed_on() {
    let guard = handed_first(1, "data: a").resume(0);
    assert!(matches!(guard.on_event::<String>(LineEvent::End, 5), LineStep::Finish));
    let guard = handed_first(1, "data: a").resume(0);
    match guard.on_event(LineEvent::Broken("reset".to_string()), 5) {
        LineStep::Broken(error) => assert_eq!(error, "reset"),
        _ => panic!("the error should be passed on"),
    }
}

#[test]
fn the_longest_timeout_does_not_overflow() {
    let guard = handed_first(u64::MAX, "data: a").resume(u64::MAX);
    assert_eq!(
        guard.deadline,
        u64::MAX as u128 + u64::MAX as u128 * SEC as u128
    );
}

/// Healthy data frames, then keepalive comment frames forever.
#[test]
fn keepalives_do_not_mask_a_stall() {
    let mut guard = handed_first(1, "data: Hi").resume(0);
    guard = take_line(guard, "", 0);
    guard = take_line(guard, "data: Hi", 10 * MILLI);
    let deadline = guard.deadline;
    assert_eq!(deadline, (SEC + 10 * MILLI) as u128);
    let mut now = 10 * MILLI;
    while (now as u128) < deadline {
        guard = take_line(guard, ": ping", now);
        guard = take_line(guard, "", now);
        assert_eq!(guard.deadline, deadline);
        now += 100 * MILLI;
    }
    match guard.on_event::<String>(LineEvent::TimedOut, now) {
        LineStep::Stalled(error) => assert_eq!(error, stall_error(1)),
        _ => panic!("the stall should be found out"),
    }
}

/// Data frames and keepalives in turn, 150 ms apart, against an idle timeout of one second.
#[test]
fn slow_data_lines_stay_ahead_of_the_deadline() {
    let mut now = 150 * MILLI;
    let mut guard = handed_first(1, ": ping").resume(now);
    guard = take_line(guard, "", now);
    for i in 0..5 {
        now += 150 * MILLI;
        assert!((now as u128) < guard.deadline);
        guard = take_line(guard, &format!("data: Hi {i}"), now);
        assert_eq!(guard.deadline, (now + SEC) as u128);
        guard = take_line(guard, "", now);
        now += 150 * MILLI;
        assert!((now as u128) < guard.deadline);
        guard = take_line(guard, ": ping", now);
        guard = take_line(guard, "", now);
    }
    guard = take_line(guard, "data: [DONE]", now);
    assert!(matches!(guard.on_event::<String>(LineEvent::End, now), LineStep::Finish));
}

#[test]
fn keepalives_alone_do_not_keep_a_stream_alive() {
    let mut guard = handed_first(2, "data: Hi").resume(SEC);
    for i in 0..10 {
        guard = take_line(guard, ": ping", SEC + i * 100 * MILLI);
    }
    assert_eq!(guard.deadline, 3 * SEC as u128);
    match guard.on_event::<String>(LineEvent::TimedOut, 3 * SEC) {
        LineStep::Stalled(error) => assert_eq!(error, stall_error(2)),
        _ => panic!("the stall should be found out"),
    }
}

/// What a guard hands out of `arrivals`, and whether it then stalls, when the consumer is
/// always waiting and nothing comes after them until `until`.
fn replay(idle_timeout_secs: u64, arrivals: &[(u64, &str)], until: u64) -> (Vec<String>, bool) {
    let mut guard = handed_first(idle_timeout_secs, "data: first").resume(0);
    let mut handed = Vec::new();
    for (at, line) in arrivals {
        if *at as u128 > guard.deadline {
            return (handed, true);
        }
        guard = take_line(guard, line, *at);
        handed.push(line.to_string());
    }
    (handed, until as u128 > guard.deadline)
}

#[test]
fn a_stream_stalls_when_the_next_arrival_is_late() {
    let on_time = [(SEC, "data: a"), (2 * SEC, "data: b")];
    assert_eq!(replay(1, &on_time, 3 * SEC).1, false);
    assert_eq!(replay(1, &on_time, 3 * SEC + 1).1, true);
    let late = [(SEC, "data: a"), (2 * SEC + 1, "data: b")];
    assert_eq!(replay(1, &late, 3 * SEC), (vec!["data: a".to_string()], true));
}

#[test]
fn a_longer_timeout_hands_out_no_less() {
    let arrivals = [(SEC, "data: a"), (2 * SEC, ": ping"), (3 * SEC, "data: b"), (9 * SEC, "data: c")];
    let mut before = Vec::new();
    for secs in 0..8 {
        let (handed, _) = replay(secs, &arrivals, 9 * SEC);
        assert!(handed.starts_with(&before));
        before = handed;
    }
    assert_eq!(before.len(), 4);
    assert_eq!(replay(6, &arrivals, 9 * SEC), replay(60, &arrivals, 9 * SEC));
}

#[test]
fn an_extra_keepalive_changes_nothing_else() {
    let arrivals = [(SEC, "data: a"), (3 * SEC, "data: b")];
    let more = [(SEC, "data: a"), (2 * SEC, ": ping"), (3 * SEC, "data: b")];
    assert_eq!(replay(1, &arrivals, 9 * SEC), (vec!["data: a".to_string()], true));
    assert_eq!(
        replay(1, &more, 9 * SEC),
        (vec!["data: a".to_string(), ": ping".to_string()], true)
    );
    assert_eq!(replay(2, &arrivals, 5 * SEC).1, replay(2, &more, 5 * SEC).1);
}
