//! The transport resilience policy: what the receiving side does when the
//! bus connection fails, as a machine of two states.
//!
//! The machine never stops: every state answers every event with a next
//! state and something to do, and none of the things to do is giving up.

use vstd::prelude::*;

verus! {

/// Seconds to wait after a transport failure before receiving again.
pub const BACKOFF_SECS: u64 = 5;

/// State of the link to the bus.
#[derive(Clone, Copy, Debug, PartialEq, Eq, Structural)]
pub enum LinkState {
    /// Messages are being received.
    Connected,
    /// A failure was seen; the backoff delay is running.
    Reconnecting,
}

/// What happened on the link.
#[derive(Clone, Copy, Debug, PartialEq, Eq, Structural)]
pub enum LinkEvent {
    /// Waiting for the next message ended with something from the bus.
    Delivered,
    /// Waiting for the next message ended with a transport error.
    TransportError,
    /// The backoff delay is over.
    BackoffElapsed,
}

/// What the receiving side does next.
#[derive(Clone, Copy, Debug, PartialEq, Eq, Structural)]
pub enum LinkAction {
    /// Wait for the next message.
    Receive,
    /// Sleep for this many seconds, then report `BackoffElapsed`.
    Backoff { seconds: u64 },
    /// Issue the subscription, then wait for the next message.
    Subscribe,
}

/// A retry policy with a fixed delay and no limit on the number of retries.
#[derive(Clone, Copy, Debug, PartialEq, Eq, Structural)]
pub struct RetryPolicy {
    /// Seconds to wait after each failure.
    pub backoff_secs: u64,
}

impl RetryPolicy {
    /// The next state and the action that answer `event` in `state`.
    ///
    /// A transport error always leads to `Reconnecting` and a backoff of the
    /// policy's delay. Only the end of the backoff leaves `Reconnecting`: it
    /// leads to `Connected`, and the subscription is issued again because it
    /// does not survive a disconnect. Everything else keeps the state.
    pub open spec fn transition(self, state: LinkState, event: LinkEvent) -> (LinkState, LinkAction) {
        match (state, event) {
            (_, LinkEvent::TransportError) => (
                LinkState::Reconnecting,
                LinkAction::Backoff { seconds: self.backoff_secs },
            ),
            (LinkState::Reconnecting, LinkEvent::BackoffElapsed) => (
                LinkState::Connected,
                LinkAction::Subscribe,
            ),
            (LinkState::Reconnecting, LinkEvent::Delivered) => (
                LinkState::Reconnecting,
                LinkAction::Backoff { seconds: self.backoff_secs },
            ),
            (LinkState::Connected, _) => (LinkState::Connected, LinkAction::Receive),
        }
    }

    /// The state after a whole sequence of events.
    pub open spec fn run(self, state: LinkState, events: Seq<LinkEvent>) -> LinkState
        decreases events.len(),
    {
        if events.len() == 0 {
            state
        } else {
            self.transition(self.run(state, events.drop_last()), events.last()).0
        }
    }

    /// The policy with the standard delay of [`BACKOFF_SECS`].
    pub fn fixed() -> (policy: RetryPolicy)
        ensures
            policy.backoff_secs == BACKOFF_SECS,
    {
        RetryPolicy { backoff_secs: BACKOFF_SECS }
    }

    /// Answers `event` in `state`, see [`RetryPolicy::transition`].
    pub fn step(&self, state: LinkState, event: LinkEvent) -> (next: (LinkState, LinkAction))
        ensures
            next == self.transition(state, event),
    {
        match event {
            LinkEvent::TransportError => (
                LinkState::Reconnecting,
                LinkAction::Backoff { seconds: self.backoff_secs },
            ),
            LinkEvent::BackoffElapsed => match state {
                LinkState::Reconnecting => (LinkState::Connected, LinkAction::Subscribe),
                LinkState::Connected => (LinkState::Connected, LinkAction::Receive),
            },
            LinkEvent::Delivered => match state {
                LinkState::Reconnecting => (
                    LinkState::Reconnecting,
                    LinkAction::Backoff { seconds: self.backoff_secs },
                ),
                LinkState::Connected => (LinkState::Connected, LinkAction::Receive),
            },
        }
    }
}

/// However many failures came before, a failure followed by the end of its
/// backoff leaves the link connected again, with the subscription renewed:
/// the policy retries without limit.
pub proof fn lemma_recovers_after_every_failure(
    policy: RetryPolicy,
    state: LinkState,
    history: Seq<LinkEvent>,
)
    ensures
        policy.run(
            state,
            history.push(LinkEvent::TransportError).push(LinkEvent::BackoffElapsed),
        ) == LinkState::Connected,
        policy.transition(
            policy.run(state, history.push(LinkEvent::TransportError)),
            LinkEvent::BackoffElapsed,
        ) == (LinkState::Connected, LinkAction::Subscribe),
{
    let failed = history.push(LinkEvent::TransportError);
    let recovered = failed.push(LinkEvent::BackoffElapsed);
    assert(failed.drop_last() =~= history);
    assert(recovered.drop_last() =~= failed);
    assert(policy.run(state, failed) == LinkState::Reconnecting);
}

/// A history that ends in a failure leaves the link reconnecting, whatever
/// came before; one that ends with the end of a backoff leaves it connected.
pub proof fn lemma_last_event_decides(
    policy: RetryPolicy,
    state: LinkState,
    history: Seq<LinkEvent>,
)
    requires
        history.len() > 0,
    ensures
        history.last() == LinkEvent::TransportError ==> policy.run(state, history)
            == LinkState::Reconnecting,
        history.last() == LinkEvent::BackoffElapsed ==> policy.run(state, history)
            == LinkState::Connected,
        history.last() == LinkEvent::Delivered ==> policy.run(state, history) == policy.run(
            state,
            history.drop_last(),
        ),
{
}

} // verus!
