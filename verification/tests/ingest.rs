use vibecheck::ingest::{
    step, IngestAction, IngestEvent, IngestState, StreamEvent, INITIAL_BACKOFF_SECS,
    MAX_BACKOFF_SECS,
};
use vibecheck::vibe::Vibe;

fn content(text: &str, created_at: i64, reshare: bool, quote: bool, reply: bool) -> IngestEvent {
    IngestEvent::Message {
        msg: StreamEvent::Content {
            text: text.to_string(),
            created_at,
            is_reshare: reshare,
            is_quote: quote,
            is_reply: reply,
        },
    }
}

#[test]
fn reshare_never_writes() {
    let (st, act) = step(&IngestState::Streaming, &content("bones day", 5, true, false, false));
    assert_eq!(st, IngestState::Streaming);
    assert_eq!(act, IngestAction::Ignore);
}

#[test]
fn quote_and_reply_are_excluded() {
    let (_, act) = step(&IngestState::Streaming, &content("bones day", 5, false, true, false));
    assert_eq!(act, IngestAction::Ignore);
    let (_, act) = step(&IngestState::Streaming, &content("bones day", 5, false, false, true));
    assert_eq!(act, IngestAction::Ignore);
}

#[test]
fn eligible_message_writes_its_classification_and_time() {
    let (st, act) = step(
        &IngestState::Streaming,
        &content("it is a no bones day", 99, false, false, false),
    );
    assert_eq!(st, IngestState::Streaming);
    assert_eq!(act, IngestAction::Write { vibe: Vibe::NoBonesDay, time: 99 });
}

#[test]
fn indeterminate_message_still_writes() {
    let (_, act) = step(
        &IngestState::Streaming,
        &content("good morning everyone", 4, false, false, false),
    );
    assert_eq!(act, IngestAction::Write { vibe: Vibe::Error, time: 4 });
}

#[test]
fn heartbeat_feeds_watchdog_and_mutates_nothing() {
    let (st, act) = step(
        &IngestState::Streaming,
        &IngestEvent::Message { msg: StreamEvent::Heartbeat },
    );
    assert_eq!(st, IngestState::Streaming);
    assert_eq!(act, IngestAction::ResetWatchdog);
}

#[test]
fn connect_then_stream() {
    let (st, act) = step(&IngestState::Connecting, &IngestEvent::Connected);
    assert_eq!(st, IngestState::Streaming);
    assert_eq!(act, IngestAction::Ignore);
}

#[test]
fn disconnect_starts_bounded_increasing_backoff() {
    let notice = IngestEvent::Message {
        msg: StreamEvent::Disconnected { code: 7, reason: "stall".to_string() },
    };
    let (mut st, act) = step(&IngestState::Streaming, &notice);
    assert_eq!(st, IngestState::Disconnected { delay: INITIAL_BACKOFF_SECS });
    assert_eq!(act, IngestAction::Wait { seconds: INITIAL_BACKOFF_SECS });
    let mut last = INITIAL_BACKOFF_SECS;
    for _ in 0..20 {
        let (next, act) = step(&st, &IngestEvent::ConnectFailed { auth_failure: false });
        match (next, act) {
            (IngestState::Disconnected { delay }, IngestAction::Wait { seconds }) => {
                assert!(delay >= last);
                assert!(delay <= MAX_BACKOFF_SECS);
                assert_eq!(seconds, delay);
                last = delay;
            }
            _ => panic!("a failed reconnect must wait and stay disconnected"),
        }
        st = next;
    }
    assert_eq!(last, MAX_BACKOFF_SECS);
}

#[test]
fn reconnect_after_disconnect() {
    let (st, act) = step(
        &IngestState::Disconnected { delay: 4 },
        &IngestEvent::Connected,
    );
    assert_eq!(st, IngestState::Streaming);
    assert_eq!(act, IngestAction::Ignore);
}

#[test]
fn auth_failure_escalates_and_terminates() {
    let (st, act) = step(
        &IngestState::Connecting,
        &IngestEvent::ConnectFailed { auth_failure: true },
    );
    assert_eq!(st, IngestState::Terminated);
    assert_eq!(act, IngestAction::Escalate);
}

#[test]
fn shutdown_terminates_from_any_state() {
    for st in [
        IngestState::Connecting,
        IngestState::Streaming,
        IngestState::Disconnected { delay: 2 },
    ] {
        let (next, act) = step(&st, &IngestEvent::Shutdown);
        assert_eq!(next, IngestState::Terminated);
        assert_eq!(act, IngestAction::Stop);
    }
}
