//! The ingestion activity: what each delivery from the bus does to the
//! presence state, and how the activity carries on afterwards.

use crate::clock::Timestamp;
use crate::event::{decode, DecodeError, DetectionEvent, DetectionEventView, EventKind, WireRecord, WireRecordView};
use crate::presence::{lemma_replay_push, PresenceState, PresenceView};
use crate::resilience::{LinkAction, LinkEvent, LinkState, RetryPolicy};
use crate::text::same_text;
use vstd::prelude::*;

verus! {

/// The topic on which lifecycle events arrive.
pub const EVENT_TOPIC: &'static str = "frigate/events";

/// What became of one message.
#[derive(Clone, Copy, Debug, PartialEq, Eq, Structural)]
pub enum Disposition {
    /// The message denoted an event of this kind, which was processed.
    Applied { kind: EventKind },
    /// The message arrived on another topic than [`EVENT_TOPIC`].
    ForeignTopic,
    /// The payload could not be read as a record.
    Unreadable,
    /// The payload was a record that denotes no event.
    Rejected { error: DecodeError },
}

/// Content of an optional record.
pub open spec fn record_view(record: Option<WireRecord>) -> Option<WireRecordView> {
    match record {
        Some(r) => Some(r@),
        None => None,
    }
}

/// What becomes of a message with this topic and this payload, where
/// `record` is `None` for a payload that could not be read.
pub open spec fn disposition_of(topic: Seq<char>, record: Option<WireRecordView>) -> Disposition {
    if topic != EVENT_TOPIC@ {
        Disposition::ForeignTopic
    } else {
        match record {
            None => Disposition::Unreadable,
            Some(r) => match decode(r) {
                Ok(event) => Disposition::Applied { kind: event.kind },
                Err(error) => Disposition::Rejected { error },
            },
        }
    }
}

/// The event that a message hands to the presence state, if any: the one
/// its record denotes, provided that the message came on [`EVENT_TOPIC`].
pub open spec fn accepted_event(topic: Seq<char>, record: Option<WireRecordView>) -> Option<
    DetectionEventView,
> {
    if topic != EVENT_TOPIC@ {
        None
    } else {
        match record {
            None => None,
            Some(r) => match decode(r) {
                Ok(event) => Some(event),
                Err(_) => None,
            },
        }
    }
}

/// The presence state after a message was ingested at time `now`. A message
/// that hands over no event leaves the state as it was.
pub open spec fn ingested(
    state: PresenceView,
    topic: Seq<char>,
    record: Option<WireRecordView>,
    now: Timestamp,
) -> PresenceView {
    match accepted_event(topic, record) {
        Some(event) => state.apply(event, now),
        None => state,
    }
}

/// Ingests one message at time `now`: decodes its record and, if it denotes
/// an event, processes that event. Every other message is dropped without
/// touching the state.
pub fn ingest(
    state: &mut PresenceState,
    topic: &str,
    record: Option<WireRecord>,
    now: Timestamp,
) -> (disposition: Disposition)
    ensures
        disposition == disposition_of(topic@, record_view(record)),
        final(state)@ == ingested(old(state)@, topic@, record_view(record), now),
{
    if !same_text(topic, EVENT_TOPIC) {
        return Disposition::ForeignTopic;
    }
    let record = match record {
        Some(record) => record,
        None => {
            return Disposition::Unreadable;
        },
    };
    match DetectionEvent::from_wire(record) {
        Ok(event) => {
            state.apply(&event, now);
            Disposition::Applied { kind: event.kind }
        },
        Err(error) => Disposition::Rejected { error },
    }
}

/// One thing that waiting on the bus can end with.
#[derive(Clone, Debug, PartialEq, Eq)]
pub enum Inbound {
    /// A published message; `record` is `None` when its payload could not
    /// be read as a record.
    Message { topic: String, record: Option<WireRecord> },
    /// Any other packet.
    Other,
    /// The transport failed.
    TransportError,
}

/// Mathematical content of an [`Inbound`].
pub enum InboundView {
    Message { topic: Seq<char>, record: Option<WireRecordView> },
    Other,
    TransportError,
}

impl View for Inbound {
    type V = InboundView;

    open spec fn view(&self) -> InboundView {
        match self {
            Inbound::Message { topic, record } => InboundView::Message {
                topic: topic@,
                record: record_view(*record),
            },
            Inbound::Other => InboundView::Other,
            Inbound::TransportError => InboundView::TransportError,
        }
    }
}

impl InboundView {
    /// How the link sees this outcome.
    pub open spec fn link_event(self) -> LinkEvent {
        match self {
            InboundView::TransportError => LinkEvent::TransportError,
            _ => LinkEvent::Delivered,
        }
    }

    /// The presence state after this outcome was handled at time `now`.
    pub open spec fn applied_to(self, state: PresenceView, now: Timestamp) -> PresenceView {
        match self {
            InboundView::Message { topic, record } => ingested(state, topic, record, now),
            _ => state,
        }
    }

    /// What became of the message, if the outcome was one.
    pub open spec fn disposition(self) -> Option<Disposition> {
        match self {
            InboundView::Message { topic, record } => Some(disposition_of(topic, record)),
            _ => None,
        }
    }
}

/// What the activity does after an outcome was handled.
#[derive(Clone, Copy, Debug, PartialEq, Eq, Structural)]
pub struct Handled {
    /// What to do next on the link.
    pub action: LinkAction,
    /// What became of the message, if the outcome was one.
    pub disposition: Option<Disposition>,
}

/// The ingestion activity: the state of its link and its retry policy.
#[derive(Clone, Copy, Debug, PartialEq, Eq, Structural)]
pub struct Ingestion {
    link: LinkState,
    policy: RetryPolicy,
}

impl Ingestion {
    /// State of the link.
    pub closed spec fn spec_link(self) -> LinkState {
        self.link
    }

    /// The retry policy in force.
    pub closed spec fn spec_policy(self) -> RetryPolicy {
        self.policy
    }

    /// Begins the activity on a fresh connection. The first thing to do is
    /// to issue the subscription.
    pub fn begin(policy: RetryPolicy) -> (begun: (Ingestion, LinkAction))
        ensures
            begun.0.spec_link() == LinkState::Connected,
            begun.0.spec_policy() == policy,
            begun.1 == LinkAction::Subscribe,
    {
        (Ingestion { link: LinkState::Connected, policy }, LinkAction::Subscribe)
    }

    /// State of the link.
    #[verifier::when_used_as_spec(spec_link)]
    pub fn link(self) -> (link: LinkState)
        ensures
            link == self.spec_link(),
    {
        self.link
    }

    /// The retry policy in force.
    #[verifier::when_used_as_spec(spec_policy)]
    pub fn policy(self) -> (policy: RetryPolicy)
        ensures
            policy == self.spec_policy(),
    {
        self.policy
    }

    /// Handles what waiting on the bus ended with, at time `now`.
    ///
    /// A message is ingested, see [`ingest`]; nothing else touches the
    /// presence state. A transport error is answered by the retry policy and
    /// by nothing else: it is never handed on.
    pub fn on_inbound(&mut self, state: &mut PresenceState, inbound: Inbound, now: Timestamp) -> (handled: Handled)
        ensures
            final(state)@ == inbound@.applied_to(old(state)@, now),
            handled.disposition == inbound@.disposition(),
            (final(self).spec_link(), handled.action) == old(self).spec_policy().transition(
                old(self).spec_link(),
                inbound@.link_event(),
            ),
            final(self).spec_policy() == old(self).spec_policy(),
    {
        let (event, disposition) = match inbound {
            Inbound::Message { topic, record } => {
                let disposition = ingest(state, topic.as_str(), record, now);
                (LinkEvent::Delivered, Some(disposition))
            },
            Inbound::Other => (LinkEvent::Delivered, None),
            Inbound::TransportError => (LinkEvent::TransportError, None),
        };
        let (link, action) = self.policy.step(self.link, event);
        self.link = link;
        Handled { action, disposition }
    }

    /// Handles the end of a backoff delay.
    pub fn on_backoff_elapsed(&mut self) -> (action: LinkAction)
        ensures
            (final(self).spec_link(), action) == old(self).spec_policy().transition(
                old(self).spec_link(),
                LinkEvent::BackoffElapsed,
            ),
            final(self).spec_policy() == old(self).spec_policy(),
    {
        let (link, action) = self.policy.step(self.link, LinkEvent::BackoffElapsed);
        self.link = link;
        action
    }
}

/// One message together with the time at which it is ingested.
pub struct Delivery {
    pub topic: Seq<char>,
    pub record: Option<WireRecordView>,
    pub at: Timestamp,
}

/// The presence state after a sequence of messages was ingested, first to
/// last.
pub open spec fn ingest_all(state: PresenceView, deliveries: Seq<Delivery>) -> PresenceView
    decreases deliveries.len(),
{
    if deliveries.len() == 0 {
        state
    } else {
        let last = deliveries.last();
        ingested(ingest_all(state, deliveries.drop_last()), last.topic, last.record, last.at)
    }
}

/// The events that a sequence of messages hands to the presence state, each
/// with the time of its message, in the order of arrival.
pub open spec fn events_of(deliveries: Seq<Delivery>) -> Seq<(DetectionEventView, Timestamp)>
    decreases deliveries.len(),
{
    if deliveries.len() == 0 {
        Seq::empty()
    } else {
        let last = deliveries.last();
        let front = events_of(deliveries.drop_last());
        match accepted_event(last.topic, last.record) {
            Some(event) => front.push((event, last.at)),
            None => front,
        }
    }
}

/// Ingesting messages is processing the events they hand over, and nothing
/// more.
pub proof fn lemma_ingest_all_is_replay(state: PresenceView, deliveries: Seq<Delivery>)
    ensures
        ingest_all(state, deliveries) == state.replay(events_of(deliveries)),
    decreases deliveries.len(),
{
    if deliveries.len() > 0 {
        let last = deliveries.last();
        let front = deliveries.drop_last();
        lemma_ingest_all_is_replay(state, front);
        match accepted_event(last.topic, last.record) {
            Some(event) => {
                lemma_replay_push(state, events_of(front), event, last.at);
            },
            None => {},
        }
    }
}

/// The events of two runs of messages, one after the other, are the events
/// of the first followed by those of the second.
pub proof fn lemma_events_of_concat(first: Seq<Delivery>, second: Seq<Delivery>)
    ensures
        events_of(first + second) == events_of(first) + events_of(second),
    decreases second.len(),
{
    if second.len() == 0 {
        assert(first + second =~= first);
        assert(events_of(first) + events_of(second) =~= events_of(first));
    } else {
        let whole = first + second;
        assert(whole.drop_last() =~= first + second.drop_last());
        assert(whole.last() == second.last());
        lemma_events_of_concat(first, second.drop_last());
        let last = second.last();
        match accepted_event(last.topic, last.record) {
            Some(event) => {
                assert(events_of(whole) =~= events_of(first) + events_of(second));
            },
            None => {},
        }
    }
}

/// A message that hands over no event (one on a foreign topic, one whose
/// payload cannot be read, one whose record lacks the object or its
/// identifier) is dropped without a trace: the state after the whole sequence
/// is the state that the other messages alone lead to.
pub proof fn lemma_dropped_message_leaves_no_trace(
    state: PresenceView,
    before: Seq<Delivery>,
    dropped: Delivery,
    after: Seq<Delivery>,
)
    requires
        accepted_event(dropped.topic, dropped.record) is None,
    ensures
        ingest_all(state, before.push(dropped) + after) == ingest_all(state, before + after),
        ingest_all(state, before.push(dropped)) == ingest_all(state, before),
{
    let with_dropped = before.push(dropped);
    assert(with_dropped.drop_last() =~= before);
    assert(events_of(with_dropped) == events_of(before));
    lemma_events_of_concat(with_dropped, after);
    lemma_events_of_concat(before, after);
    lemma_ingest_all_is_replay(state, with_dropped + after);
    lemma_ingest_all_is_replay(state, before + after);
}

} // verus!
