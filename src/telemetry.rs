//! The telemetry step: the message that carries a shareable link, and the
//! decisions of a publish attempt as the transport reports its events.

use vstd::prelude::*;
use crate::upload::{json_quoted, json_string};

verus! {

/// The topic that links are published to.
pub const TOPIC: &'static str = "volp/share/link";

/// The broker's TLS port.
pub const BROKER_PORT: u16 = 8883;

/// The session's keep-alive interval, in seconds.
pub const KEEP_ALIVE_SECS: u64 = 5;

/// How long the session is kept open after the publish, in seconds.
pub const GRACE_SECS: u64 = 10;

/// How many requests the transport's client queues.
pub const REQUEST_CAPACITY: usize = 5;

/// The payload text before the quoted link.
pub const PAYLOAD_OPEN: &'static str = "{\"link\":";

/// The payload text after the quoted link.
pub const PAYLOAD_CLOSE: &'static str = "}";

/// The JSON object that carries `link` as a JSON string.
pub open spec fn payload_spec(link: Seq<char>) -> Seq<char> {
    PAYLOAD_OPEN@ + json_quoted(link) + PAYLOAD_CLOSE@
}

/// The payload published for `link`: `{"link":<link as a JSON string>}`.
pub fn link_payload(link: &str) -> (r: String)
    ensures
        r@ == payload_spec(link@),
{
    let mut text = String::from_str(PAYLOAD_OPEN);
    text.append(json_string(link).as_str());
    text.append(PAYLOAD_CLOSE);
    text
}

/// Where a publish attempt stands.
#[derive(Debug, Clone, Copy, PartialEq, Eq, Structural)]
pub enum PublishState {
    Connecting,
    Publishing,
    Confirmed,
    Failed,
}

/// What the transport reported.
#[derive(Debug, Clone, Copy, PartialEq, Eq, Structural)]
pub enum TransportEvent {
    /// The broker accepted the session.
    ConnAck,
    /// The publish frame left the client.
    PublishSent,
    /// Anything else the transport reports.
    Other,
    /// The transport failed.
    Error,
}

/// What the caller does next.
#[derive(Debug, Clone, Copy, PartialEq, Eq, Structural)]
pub enum PublishAction {
    /// Wait for the next event.
    Poll,
    /// The publish is confirmed: return success.
    Succeed,
    /// The publish failed: return the failure.
    Fail,
}

/// The state after `event`: the sent acknowledgment confirms, a transport
/// failure fails, the broker's acceptance moves on to publishing, and the
/// two final states stay as they are.
pub open spec fn next_state(state: PublishState, event: TransportEvent) -> PublishState {
    match state {
        PublishState::Confirmed => PublishState::Confirmed,
        PublishState::Failed => PublishState::Failed,
        _ => match event {
            TransportEvent::PublishSent => PublishState::Confirmed,
            TransportEvent::Error => PublishState::Failed,
            TransportEvent::ConnAck => PublishState::Publishing,
            TransportEvent::Other => state,
        },
    }
}

/// The action that a state calls for.
pub open spec fn action_of(state: PublishState) -> PublishAction {
    match state {
        PublishState::Confirmed => PublishAction::Succeed,
        PublishState::Failed => PublishAction::Fail,
        _ => PublishAction::Poll,
    }
}

/// Takes one transport event and says what to do next.
pub fn publish_step(state: PublishState, event: TransportEvent) -> (r: (PublishState, PublishAction))
    ensures
        r.0 == next_state(state, event),
        r.1 == action_of(r.0),
{
    let next = match state {
        PublishState::Confirmed => PublishState::Confirmed,
        PublishState::Failed => PublishState::Failed,
        _ => match event {
            TransportEvent::PublishSent => PublishState::Confirmed,
            TransportEvent::Error => PublishState::Failed,
            TransportEvent::ConnAck => PublishState::Publishing,
            TransportEvent::Other => state,
        },
    };
    let action = match next {
        PublishState::Confirmed => PublishAction::Succeed,
        PublishState::Failed => PublishAction::Fail,
        _ => PublishAction::Poll,
    };
    (next, action)
}

/// The state after a sequence of events.
pub open spec fn run_events(state: PublishState, events: Seq<TransportEvent>) -> PublishState
    decreases events.len(),
{
    if events.len() == 0 {
        state
    } else {
        run_events(next_state(state, events[0]), events.drop_first())
    }
}

/// Whether the sent acknowledgment comes in `events` before any failure.
pub open spec fn sent_before_failure(events: Seq<TransportEvent>) -> bool {
    exists|i: int|
        0 <= i < events.len() && events[i] == TransportEvent::PublishSent && forall|j: int|
            0 <= j < i ==> events[j] != TransportEvent::Error
}

/// A publish attempt is confirmed after a sequence of events exactly when
/// the sent acknowledgment was among them before any transport failure.
pub proof fn law_confirmed_only_after_sent(events: Seq<TransportEvent>)
    ensures
        run_events(PublishState::Connecting, events) == PublishState::Confirmed
            <==> sent_before_failure(events),
{
    lemma_run_from_open(PublishState::Connecting, events);
}

proof fn lemma_final_stays(state: PublishState, events: Seq<TransportEvent>)
    requires
        state == PublishState::Confirmed || state == PublishState::Failed,
    ensures
        run_events(state, events) == state,
    decreases events.len(),
{
    if events.len() > 0 {
        lemma_final_stays(state, events.drop_first());
    }
}

proof fn lemma_run_from_open(state: PublishState, events: Seq<TransportEvent>)
    requires
        state == PublishState::Connecting || state == PublishState::Publishing,
    ensures
        run_events(state, events) == PublishState::Confirmed <==> sent_before_failure(events),
    decreases events.len(),
{
    if events.len() > 0 {
        let rest = events.drop_first();
        let next = next_state(state, events[0]);
        if events[0] == TransportEvent::PublishSent {
            lemma_final_stays(next, rest);
            assert(sent_before_failure(events)) by {
                assert(events[0] == TransportEvent::PublishSent);
            }
        } else if events[0] == TransportEvent::Error {
            lemma_final_stays(next, rest);
            if sent_before_failure(events) {
                let i = choose|i: int|
                    0 <= i < events.len() && events[i] == TransportEvent::PublishSent && forall|j: int|
                        0 <= j < i ==> events[j] != TransportEvent::Error;
                assert(i > 0);
                assert(events[0] != TransportEvent::Error);
            }
        } else {
            lemma_run_from_open(next, rest);
            if sent_before_failure(events) {
                let i = choose|i: int|
                    0 <= i < events.len() && events[i] == TransportEvent::PublishSent && forall|j: int|
                        0 <= j < i ==> events[j] != TransportEvent::Error;
                assert(i > 0);
                assert(rest[i - 1] == TransportEvent::PublishSent);
                assert(forall|j: int| 0 <= j < i - 1 ==> rest[j] == events[j + 1]);
                assert(sent_before_failure(rest));
            }
            if sent_before_failure(rest) {
                let k = choose|k: int|
                    0 <= k < rest.len() && rest[k] == TransportEvent::PublishSent && forall|j: int|
                        0 <= j < k ==> rest[j] != TransportEvent::Error;
                assert(events[k + 1] == TransportEvent::PublishSent);
                assert forall|j: int| 0 <= j < k + 1 implies events[j] != TransportEvent::Error by {
                    if j > 0 {
                        assert(events[j] == rest[j - 1]);
                    }
                }
                assert(sent_before_failure(events));
            }
        }
    }
}

} // verus!
