use vstd::prelude::*;
use vstd::string::*;
use crate::classifier::{parse_text, spec_classify};
use crate::vibe::Vibe;

verus! {

/// Delay before the first reconnection attempt, in seconds.
pub const INITIAL_BACKOFF_SECS: u64 = 1;

/// Largest delay between reconnection attempts, in seconds.
pub const MAX_BACKOFF_SECS: u64 = 64;

/// One message handed in by the subscription layer while the stream is up.
pub enum StreamEvent {
    /// A content message: its text, its own creation time (Unix seconds), and
    /// whether it is a reshare, a quote, or a reply to another message.
    Content { text: String, created_at: i64, is_reshare: bool, is_quote: bool, is_reply: bool },
    /// A liveness message; it feeds the inactivity watchdog and nothing else.
    Heartbeat,
    /// The feed announced a disconnect.
    Disconnected { code: u64, reason: String },
}

/// An event the surrounding process feeds into the ingester.
pub enum IngestEvent {
    /// The stream was established.
    Connected,
    /// An attempt to establish the stream failed; an authentication failure
    /// is marked, since it must be escalated rather than retried.
    ConnectFailed { auth_failure: bool },
    /// A message arrived on the live stream.
    Message { msg: StreamEvent },
    /// The surrounding process asked the ingester to stop.
    Shutdown,
}

/// Where the ingester stands.
#[derive(Clone, Copy, PartialEq, Eq, Structural, Debug)]
pub enum IngestState {
    /// Before the first connection attempt has resolved.
    Connecting,
    /// Consuming the live stream.
    Streaming,
    /// The stream is down; the next reconnection attempt comes after `delay`
    /// seconds.
    Disconnected { delay: u64 },
    /// Shut down on request, or stopped after an escalated failure.
    Terminated,
}

/// What the surrounding process must do after a step.
#[derive(Clone, Copy, PartialEq, Eq, Structural, Debug)]
pub enum IngestAction {
    /// Nothing.
    Ignore,
    /// Write this classification, stamped with this time, to the store.
    Write { vibe: Vibe, time: i64 },
    /// Feed the inactivity watchdog; mutate nothing.
    ResetWatchdog,
    /// Sleep this many seconds, then attempt to connect and report back.
    Wait { seconds: u64 },
    /// Authentication failed: hand the failure to the surrounding process.
    Escalate,
    /// Stop consuming and release the connection.
    Stop,
}

/// Only an originating, standalone content message is classified: a reshare,
/// a quote, or a reply to another message is excluded, before classification.
pub open spec fn eligible(msg: StreamEvent) -> bool {
    msg matches StreamEvent::Content { is_reshare, is_quote, is_reply, .. } && !is_reshare
        && !is_quote && !is_reply
}

/// The backoff that follows a failed reconnection attempt made under backoff
/// `d`: doubled, capped at the maximum.
pub open spec fn next_delay_spec(d: u64) -> u64 {
    if d >= MAX_BACKOFF_SECS {
        MAX_BACKOFF_SECS
    } else if d * 2 >= MAX_BACKOFF_SECS {
        MAX_BACKOFF_SECS
    } else {
        (d * 2) as u64
    }
}

fn next_delay(d: u64) -> (r: u64)
    ensures
        r == next_delay_spec(d),
{
    if d >= MAX_BACKOFF_SECS {
        MAX_BACKOFF_SECS
    } else {
        let doubled = d * 2;
        if doubled >= MAX_BACKOFF_SECS {
            MAX_BACKOFF_SECS
        } else {
            doubled
        }
    }
}

/// The transition relation of the ingester, as one function from state and
/// event to successor state and required action.
pub open spec fn spec_step(state: IngestState, event: IngestEvent) -> (IngestState, IngestAction) {
    match state {
        IngestState::Terminated => (IngestState::Terminated, IngestAction::Stop),
        IngestState::Connecting => match event {
            IngestEvent::Connected => (IngestState::Streaming, IngestAction::Ignore),
            IngestEvent::ConnectFailed { auth_failure } => if auth_failure {
                (IngestState::Terminated, IngestAction::Escalate)
            } else {
                (
                    IngestState::Disconnected { delay: INITIAL_BACKOFF_SECS },
                    IngestAction::Wait { seconds: INITIAL_BACKOFF_SECS },
                )
            },
            IngestEvent::Message { .. } => (IngestState::Connecting, IngestAction::Ignore),
            IngestEvent::Shutdown => (IngestState::Terminated, IngestAction::Stop),
        },
        IngestState::Disconnected { delay } => match event {
            IngestEvent::Connected => (IngestState::Streaming, IngestAction::Ignore),
            IngestEvent::ConnectFailed { auth_failure } => if auth_failure {
                (IngestState::Terminated, IngestAction::Escalate)
            } else {
                (
                    IngestState::Disconnected { delay: next_delay_spec(delay) },
                    IngestAction::Wait { seconds: next_delay_spec(delay) },
                )
            },
            IngestEvent::Message { .. } => (
                IngestState::Disconnected { delay },
                IngestAction::Ignore,
            ),
            IngestEvent::Shutdown => (IngestState::Terminated, IngestAction::Stop),
        },
        IngestState::Streaming => match event {
            IngestEvent::Message { msg } => match msg {
                StreamEvent::Content { text, created_at, is_reshare, is_quote, is_reply } => if !is_reshare
                    && !is_quote && !is_reply {
                    (
                        IngestState::Streaming,
                        IngestAction::Write { vibe: spec_classify(text@), time: created_at },
                    )
                } else {
                    (IngestState::Streaming, IngestAction::Ignore)
                },
                StreamEvent::Heartbeat => (IngestState::Streaming, IngestAction::ResetWatchdog),
                StreamEvent::Disconnected { .. } => (
                    IngestState::Disconnected { delay: INITIAL_BACKOFF_SECS },
                    IngestAction::Wait { seconds: INITIAL_BACKOFF_SECS },
                ),
            },
            IngestEvent::Connected => (IngestState::Streaming, IngestAction::Ignore),
            IngestEvent::ConnectFailed { .. } => (IngestState::Streaming, IngestAction::Ignore),
            IngestEvent::Shutdown => (IngestState::Terminated, IngestAction::Stop),
        },
    }
}

/// Take one step of the ingester: decide the successor state and the action
/// the surrounding process must perform. Pure in its arguments; transient
/// stream trouble leads back towards reconnection, never to a failure.
pub fn step(state: &IngestState, event: &IngestEvent) -> (r: (IngestState, IngestAction))
    ensures
        r == spec_step(*state, *event),
{
    match state {
        IngestState::Terminated => (IngestState::Terminated, IngestAction::Stop),
        IngestState::Connecting => match event {
            IngestEvent::Connected => (IngestState::Streaming, IngestAction::Ignore),
            IngestEvent::ConnectFailed { auth_failure } => if *auth_failure {
                (IngestState::Terminated, IngestAction::Escalate)
            } else {
                (
                    IngestState::Disconnected { delay: INITIAL_BACKOFF_SECS },
                    IngestAction::Wait { seconds: INITIAL_BACKOFF_SECS },
                )
            },
            IngestEvent::Message { .. } => (IngestState::Connecting, IngestAction::Ignore),
            IngestEvent::Shutdown => (IngestState::Terminated, IngestAction::Stop),
        },
        IngestState::Disconnected { delay } => match event {
            IngestEvent::Connected => (IngestState::Streaming, IngestAction::Ignore),
            IngestEvent::ConnectFailed { auth_failure } => if *auth_failure {
                (IngestState::Terminated, IngestAction::Escalate)
            } else {
                let d = next_delay(*delay);
                (IngestState::Disconnected { delay: d }, IngestAction::Wait { seconds: d })
            },
            IngestEvent::Message { .. } => (
                IngestState::Disconnected { delay: *delay },
                IngestAction::Ignore,
            ),
            IngestEvent::Shutdown => (IngestState::Terminated, IngestAction::Stop),
        },
        IngestState::Streaming => match event {
            IngestEvent::Message { msg } => match msg {
                StreamEvent::Content { text, created_at, is_reshare, is_quote, is_reply } => if !*is_reshare
                    && !*is_quote && !*is_reply {
                    let vibe = parse_text(text.as_str());
                    (IngestState::Streaming, IngestAction::Write { vibe, time: *created_at })
                } else {
                    (IngestState::Streaming, IngestAction::Ignore)
                },
                StreamEvent::Heartbeat => (IngestState::Streaming, IngestAction::ResetWatchdog),
                StreamEvent::Disconnected { .. } => (
                    IngestState::Disconnected { delay: INITIAL_BACKOFF_SECS },
                    IngestAction::Wait { seconds: INITIAL_BACKOFF_SECS },
                ),
            },
            IngestEvent::Connected => (IngestState::Streaming, IngestAction::Ignore),
            IngestEvent::ConnectFailed { .. } => (IngestState::Streaming, IngestAction::Ignore),
            IngestEvent::Shutdown => (IngestState::Terminated, IngestAction::Stop),
        },
    }
}

/// A store write comes only from an eligible content message received while
/// streaming — never from a reshare, a quote, a reply, a heartbeat or a
/// disconnect — and what it writes is the classification of the message's own
/// text, stamped with the message's own creation time.
pub proof fn lemma_write_provenance(state: IngestState, event: IngestEvent)
    ensures
        spec_step(state, event).1 matches IngestAction::Write { vibe, time } ==> {
            &&& state is Streaming
            &&& event matches IngestEvent::Message { msg }
            &&& eligible(msg)
            &&& msg matches StreamEvent::Content { text, created_at, .. } && vibe == spec_classify(
                text@,
            ) && time == created_at
        },
{
}

/// An eligible content message received while streaming always produces the
/// write of its classification, stamped with its creation time, and the
/// ingester keeps streaming.
pub proof fn lemma_eligible_message_writes(msg: StreamEvent)
    requires
        eligible(msg),
    ensures
        msg matches StreamEvent::Content { text, created_at, .. } ==> spec_step(
            IngestState::Streaming,
            IngestEvent::Message { msg },
        ) == (
            IngestState::Streaming,
            IngestAction::Write { vibe: spec_classify(text@), time: created_at },
        ),
{
}

/// Backoff bookkeeping stays in range: a disconnected state holds a delay
/// between the initial and the maximal backoff.
pub open spec fn state_wf(state: IngestState) -> bool {
    state matches IngestState::Disconnected { delay } ==> INITIAL_BACKOFF_SECS <= delay
        <= MAX_BACKOFF_SECS
}

/// Every step preserves well-formed backoff bookkeeping.
pub proof fn lemma_step_preserves_wf(state: IngestState, event: IngestEvent)
    requires
        state_wf(state),
    ensures
        state_wf(spec_step(state, event).0),
{
}

/// Reconnection backoff is bounded and increasing: a failed attempt never
/// shrinks the delay, the delay never exceeds the cap, and the wait demanded
/// of the surrounding process is exactly the recorded delay.
pub proof fn lemma_backoff_bounded_increasing(delay: u64)
    requires
        INITIAL_BACKOFF_SECS <= delay <= MAX_BACKOFF_SECS,
    ensures
        ({
            let (next, act) = spec_step(
                IngestState::Disconnected { delay },
                IngestEvent::ConnectFailed { auth_failure: false },
            );
            &&& next matches IngestState::Disconnected { delay: d2 } && delay <= d2
                <= MAX_BACKOFF_SECS
            &&& act matches IngestAction::Wait { seconds } && next == (IngestState::Disconnected {
                delay: seconds,
            })
        }),
{
}

/// The machine reaches `Terminated` only on an explicit shutdown request or
/// on an escalated authentication failure; stream trouble alone never ends it.
pub proof fn lemma_termination_only_on_request(state: IngestState, event: IngestEvent)
    requires
        state !is Terminated,
        spec_step(state, event).0 is Terminated,
    ensures
        event is Shutdown || event matches IngestEvent::ConnectFailed { auth_failure: true },
{
}

} // verus!
