//! The presence state: which objects are tracked right now, and when a
//! detection was last seen.

use crate::clock::Timestamp;
use crate::event::{DetectionEvent, DetectionEventView, EventKind};
use vstd::hash_set::StringHashSet;
use vstd::prelude::*;

verus! {

/// Mathematical content of a [`PresenceState`].
#[verifier::ext_equal]
pub struct PresenceView {
    /// Identifiers of the objects that are tracked.
    pub active_ids: Set<Seq<char>>,
    /// When an object was last reported as present.
    pub last_detection_at: Option<Timestamp>,
}

impl PresenceView {
    /// The state before any event: nothing tracked, no detection seen.
    pub open spec fn empty() -> PresenceView {
        PresenceView { active_ids: Set::empty(), last_detection_at: None }
    }

    /// The state after the event has been processed at time `now`.
    ///
    /// `New` and `Update` put the object among the tracked ones and record
    /// `now` as the time of the last detection. `End` takes the object out
    /// and leaves the time alone. Events of unknown kind change nothing.
    pub open spec fn apply(self, event: DetectionEventView, now: Timestamp) -> PresenceView {
        match event.kind {
            EventKind::New | EventKind::Update => PresenceView {
                active_ids: self.active_ids.insert(event.object_id),
                last_detection_at: Some(now),
            },
            EventKind::End => PresenceView {
                active_ids: self.active_ids.remove(event.object_id),
                last_detection_at: self.last_detection_at,
            },
            EventKind::Unknown => self,
        }
    }

    /// The state after a whole sequence of events, each processed at the
    /// time it is paired with, first to last.
    pub open spec fn replay(self, events: Seq<(DetectionEventView, Timestamp)>) -> PresenceView
        decreases events.len(),
    {
        if events.len() == 0 {
            self
        } else {
            self.replay(events.drop_last()).apply(events.last().0, events.last().1)
        }
    }
}

/// The set of tracked objects together with the time of the last detection.
///
/// Both parts change together under `&mut self` and are read together under
/// `&self`, so no reader sees one without the other.
pub struct PresenceState {
    active_ids: StringHashSet,
    last_detection_at: Option<Timestamp>,
}

impl View for PresenceState {
    type V = PresenceView;

    closed spec fn view(&self) -> PresenceView {
        PresenceView {
            active_ids: self.active_ids@,
            last_detection_at: self.last_detection_at,
        }
    }
}

impl PresenceState {
    /// A state in which nothing is tracked and no detection was ever seen.
    pub fn new() -> (state: PresenceState)
        ensures
            state@ == PresenceView::empty(),
    {
        PresenceState { active_ids: StringHashSet::new(), last_detection_at: None }
    }

    /// Processes one event at time `now`.
    pub fn apply(&mut self, event: &DetectionEvent, now: Timestamp)
        ensures
            final(self)@ == old(self)@.apply(event@, now),
    {
        match event.kind {
            EventKind::New | EventKind::Update => {
                self.active_ids.insert(event.object_id.clone());
                self.last_detection_at = Some(now);
            },
            EventKind::End => {
                self.active_ids.remove(event.object_id.as_str());
            },
            EventKind::Unknown => {},
        }
    }

    /// Reads both parts of the state at once: whether nothing is tracked,
    /// and the time of the last detection.
    pub fn snapshot(&self) -> (snapshot: (bool, Option<Timestamp>))
        ensures
            snapshot.0 == self@.active_ids.is_empty(),
            snapshot.1 == self@.last_detection_at,
    {
        (self.active_ids.is_empty(), self.last_detection_at)
    }

    /// Whether the object with this identifier is tracked.
    pub fn is_active(&self, object_id: &str) -> (active: bool)
        ensures
            active == self@.active_ids.contains(object_id@),
    {
        self.active_ids.contains(object_id)
    }

    /// How many objects are tracked.
    pub fn active_count(&self) -> (count: usize)
        ensures
            count == self@.active_ids.len(),
    {
        self.active_ids.len()
    }

    /// The time of the last detection, if there was one.
    pub fn last_detection_at(&self) -> (last: Option<Timestamp>)
        ensures
            last == self@.last_detection_at,
    {
        self.last_detection_at
    }
}

/// Whether the event concerns the object `id` and is of a known kind.
pub open spec fn touches(event: DetectionEventView, id: Seq<char>) -> bool {
    event.object_id == id && !(event.kind is Unknown)
}

/// Processing an `End` event for an object that is not tracked leaves the
/// state as it was.
pub proof fn lemma_end_of_untracked_changes_nothing(
    state: PresenceView,
    event: DetectionEventView,
    now: Timestamp,
)
    requires
        event.kind is End,
        !state.active_ids.contains(event.object_id),
    ensures
        state.apply(event, now) == state,
{
    assert(state.active_ids.remove(event.object_id) =~= state.active_ids);
}

/// Processing the same event twice at the same time gives the same state as
/// processing it once, so a repeated delivery does no harm.
pub proof fn lemma_apply_is_idempotent(
    state: PresenceView,
    event: DetectionEventView,
    now: Timestamp,
)
    ensures
        state.apply(event, now).apply(event, now) == state.apply(event, now),
{
    let once = state.apply(event, now);
    assert(once.apply(event, now).active_ids =~= once.active_ids);
}

/// An event changes the tracked set for its own object only, and there it
/// decides membership by its kind alone.
pub proof fn lemma_apply_membership(
    state: PresenceView,
    event: DetectionEventView,
    now: Timestamp,
    id: Seq<char>,
)
    ensures
        touches(event, id) ==> (state.apply(event, now).active_ids.contains(id)
            <==> event.kind.spec_marks_presence()),
        !touches(event, id) ==> (state.apply(event, now).active_ids.contains(id)
            <==> state.active_ids.contains(id)),
{
}

/// Replaying a sequence extended by one event is replaying the sequence and
/// then processing that event.
pub proof fn lemma_replay_push(
    start: PresenceView,
    events: Seq<(DetectionEventView, Timestamp)>,
    event: DetectionEventView,
    now: Timestamp,
)
    ensures
        start.replay(events.push((event, now))) == start.replay(events).apply(event, now),
{
    let extended = events.push((event, now));
    assert(extended.drop_last() =~= events);
    assert(extended.last() == (event, now));
}

/// Replaying one sequence after another is replaying their concatenation.
pub proof fn lemma_replay_concat(
    start: PresenceView,
    first: Seq<(DetectionEventView, Timestamp)>,
    second: Seq<(DetectionEventView, Timestamp)>,
)
    ensures
        start.replay(first + second) == start.replay(first).replay(second),
    decreases second.len(),
{
    if second.len() == 0 {
        assert(first + second =~= first);
    } else {
        lemma_replay_concat(start, first, second.drop_last());
        assert((first + second).drop_last() =~= first + second.drop_last());
        assert((first + second).last() == second.last());
    }
}

/// After any sequence of events, an object is tracked exactly if the last
/// event of known kind that concerned it reported it as present.
///
/// Here `latest` is the position of that event: it concerns `id`, and no later
/// event does.
pub proof fn lemma_presence_follows_latest_event(
    start: PresenceView,
    events: Seq<(DetectionEventView, Timestamp)>,
    id: Seq<char>,
    latest: int,
)
    requires
        0 <= latest < events.len(),
        touches(events[latest].0, id),
        forall|later: int| latest < later < events.len() ==> !touches(#[trigger] events[later].0, id),
    ensures
        start.replay(events).active_ids.contains(id)
            <==> events[latest].0.kind.spec_marks_presence(),
    decreases events.len(),
{
    let front = events.drop_last();
    lemma_apply_membership(start.replay(front), events.last().0, events.last().1, id);
    if latest < events.len() - 1 {
        assert(!touches(events[events.len() - 1].0, id));
        assert(front[latest] == events[latest]);
        assert forall|later: int| latest < later < front.len() implies !touches(
            #[trigger] front[later].0,
            id,
        ) by {
            assert(front[later] == events[later]);
        }
        lemma_presence_follows_latest_event(start, front, id, latest);
    }
}

/// Events that do not concern an object leave its membership as it was.
pub proof fn lemma_presence_kept_when_untouched(
    start: PresenceView,
    events: Seq<(DetectionEventView, Timestamp)>,
    id: Seq<char>,
)
    requires
        forall|k: int| 0 <= k < events.len() ==> !touches(#[trigger] events[k].0, id),
    ensures
        start.replay(events).active_ids.contains(id) <==> start.active_ids.contains(id),
    decreases events.len(),
{
    if events.len() > 0 {
        let front = events.drop_last();
        assert(!touches(events[events.len() - 1].0, id));
        lemma_apply_membership(start.replay(front), events.last().0, events.last().1, id);
        assert forall|k: int| 0 <= k < front.len() implies !touches(#[trigger] front[k].0, id) by {
            assert(front[k] == events[k]);
        }
        lemma_presence_kept_when_untouched(start, front, id);
    }
}

/// For a sequence of `New`, `Update` and `End` events that all concern the
/// same object, the object is tracked afterwards exactly if the last event
/// was `New` or `Update`.
pub proof fn lemma_same_object_presence(
    start: PresenceView,
    events: Seq<(DetectionEventView, Timestamp)>,
    id: Seq<char>,
)
    requires
        events.len() > 0,
        forall|k: int| 0 <= k < events.len() ==> touches(#[trigger] events[k].0, id),
    ensures
        start.replay(events).active_ids.contains(id)
            <==> events.last().0.kind.spec_marks_presence(),
{
    lemma_presence_follows_latest_event(start, events, id, events.len() - 1);
}

/// After any sequence of events, the time of the last detection is the time
/// at which the last `New` or `Update` event was processed; `End` events
/// and events of unknown kind that follow it do not touch it.
///
/// Here `latest` is the position of that `New` or `Update` event.
pub proof fn lemma_last_detection_is_latest_sighting(
    start: PresenceView,
    events: Seq<(DetectionEventView, Timestamp)>,
    latest: int,
)
    requires
        0 <= latest < events.len(),
        events[latest].0.kind.spec_marks_presence(),
        forall|later: int|
            latest < later < events.len() ==> !(#[trigger] events[later]).0.kind.spec_marks_presence(),
    ensures
        start.replay(events).last_detection_at == Some(events[latest].1),
    decreases events.len(),
{
    let front = events.drop_last();
    if latest < events.len() - 1 {
        assert(!events[events.len() - 1].0.kind.spec_marks_presence());
        assert(front[latest] == events[latest]);
        assert forall|later: int| latest < later < front.len() implies !(#[trigger] front[later]).0.kind.spec_marks_presence() by {
            assert(front[later] == events[later]);
        }
        lemma_last_detection_is_latest_sighting(start, front, latest);
    }
}

/// A sequence without any `New` or `Update` event leaves the time of the
/// last detection as it was.
pub proof fn lemma_last_detection_kept_without_sighting(
    start: PresenceView,
    events: Seq<(DetectionEventView, Timestamp)>,
)
    requires
        forall|k: int| 0 <= k < events.len() ==> !(#[trigger] events[k]).0.kind.spec_marks_presence(),
    ensures
        start.replay(events).last_detection_at == start.last_detection_at,
    decreases events.len(),
{
    if events.len() > 0 {
        let front = events.drop_last();
        assert(!events[events.len() - 1].0.kind.spec_marks_presence());
        assert forall|k: int| 0 <= k < front.len() implies !(#[trigger] front[k]).0.kind.spec_marks_presence() by {
            assert(front[k] == events[k]);
        }
        lemma_last_detection_kept_without_sighting(start, front);
    }
}

/// Whether `later` is not before `earlier`, where no time at all counts as
/// before every time.
pub open spec fn not_before(later: Option<Timestamp>, earlier: Option<Timestamp>) -> bool {
    match (earlier, later) {
        (None, _) => true,
        (Some(_), None) => false,
        (Some(e), Some(l)) => e.total_nanos() <= l.total_nanos(),
    }
}

/// While events are processed at times that do not precede the recorded
/// time of the last detection, that time never moves backwards.
pub proof fn lemma_last_detection_never_goes_back(
    start: PresenceView,
    events: Seq<(DetectionEventView, Timestamp)>,
)
    requires
        forall|k: int|
            0 <= k < events.len() ==> not_before(
                Some((#[trigger] events[k]).1),
                start.last_detection_at,
            ),
        forall|j: int, k: int|
            0 <= j <= k < events.len() ==> (#[trigger] events[j]).1.total_nanos()
                <= (#[trigger] events[k]).1.total_nanos(),
    ensures
        not_before(start.replay(events).last_detection_at, start.last_detection_at),
        forall|k: int|
            0 <= k < events.len() ==> not_before(
                start.replay(events).last_detection_at,
                start.replay(events.take(k)).last_detection_at,
            ),
    decreases events.len(),
{
    if events.len() > 0 {
        let front = events.drop_last();
        let end = events.len() - 1;
        assert forall|k: int| 0 <= k < front.len() implies not_before(
            Some((#[trigger] front[k]).1),
            start.last_detection_at,
        ) by {
            assert(front[k] == events[k]);
        }
        assert forall|j: int, k: int| 0 <= j <= k < front.len() implies (#[trigger] front[j]).1.total_nanos()
            <= (#[trigger] front[k]).1.total_nanos() by {
            assert(front[j] == events[j]);
            assert(front[k] == events[k]);
        }
        lemma_last_detection_never_goes_back(start, front);
        lemma_last_detection_bounded_by_times(start, front, events[end].1);
        let before = start.replay(front).last_detection_at;
        let after = start.replay(events).last_detection_at;
        assert(not_before(after, before));
        assert forall|k: int| 0 <= k < events.len() implies not_before(
            after,
            start.replay(events.take(k)).last_detection_at,
        ) by {
            if k < end {
                assert(events.take(k) =~= front.take(k));
            } else {
                assert(events.take(k) =~= front);
            }
        }
    }
}

/// The recorded time of the last detection is never later than a bound that
/// holds for the start and for every processing time.
proof fn lemma_last_detection_bounded_by_times(
    start: PresenceView,
    events: Seq<(DetectionEventView, Timestamp)>,
    bound: Timestamp,
)
    requires
        not_before(Some(bound), start.last_detection_at),
        forall|k: int|
            0 <= k < events.len() ==> (#[trigger] events[k]).1.total_nanos() <= bound.total_nanos(),
    ensures
        not_before(Some(bound), start.replay(events).last_detection_at),
    decreases events.len(),
{
    if events.len() > 0 {
        let front = events.drop_last();
        assert(events[events.len() - 1].1.total_nanos() <= bound.total_nanos());
        assert forall|k: int| 0 <= k < front.len() implies (#[trigger] front[k]).1.total_nanos()
            <= bound.total_nanos() by {
            assert(front[k] == events[k]);
        }
        lemma_last_detection_bounded_by_times(start, front, bound);
    }
}

} // verus!
