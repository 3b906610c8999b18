//! The publication activity: on every tick of its timer, an idle status is
//! derived from the presence state and published while nothing is tracked.
//!
//! Nothing is published while something is tracked: to a consumer, presence
//! is the absence of idle messages.

use crate::clock::{
    elapsed_secs, lemma_elapsed_gains_each_second, lemma_elapsed_grows_with_time, Timestamp,
    NANOS_PER_SEC,
};
use crate::json::{document_text_members, member, parse_document, text_member};
use crate::presence::PresenceState;
use crate::text::{decimal_digits, lemma_decimal_digits_injective, push_decimal, same_text};
use vstd::arithmetic::div_mod::{lemma_fundamental_div_mod, lemma_mod_bound};
use vstd::prelude::*;
use vstd::string::StringExecFns;

verus! {

/// Seconds between two ticks of the publication timer.
pub const PUBLISH_PERIOD_SECS: u64 = 2;

/// The status that an idle message reports.
pub const IDLE_STATUS: &'static str = "idle";

/// The note for human readers that an idle message carries.
pub const IDLE_NOTE: &'static str = "No objects detected";

/// The elapsed description of a state that never saw a detection.
pub const NEVER: &'static str = "never";

/// The status published while no object is tracked.
#[derive(Clone, Debug, PartialEq, Eq)]
pub struct IdleStatusMessage {
    /// Always [`IDLE_STATUS`].
    pub status: String,
    /// The camera scope that is idle.
    pub camera: String,
    /// Always [`IDLE_NOTE`].
    pub message: String,
    /// How long ago the last detection was, or [`NEVER`].
    pub elapsed_description: String,
    /// Time of emission, in seconds since the epoch.
    pub published_at: u64,
}

/// Mathematical content of an [`IdleStatusMessage`].
pub struct IdleStatusMessageView {
    pub status: Seq<char>,
    pub camera: Seq<char>,
    pub message: Seq<char>,
    pub elapsed_description: Seq<char>,
    pub published_at: u64,
}

impl View for IdleStatusMessage {
    type V = IdleStatusMessageView;

    open spec fn view(&self) -> IdleStatusMessageView {
        IdleStatusMessageView {
            status: self.status@,
            camera: self.camera@,
            message: self.message@,
            elapsed_description: self.elapsed_description@,
            published_at: self.published_at,
        }
    }
}

/// An idle message together with the topic it goes to.
#[derive(Clone, Debug, PartialEq, Eq)]
pub struct Publication {
    /// The outbound topic, scoped to the camera.
    pub topic: String,
    /// The message to publish there.
    pub message: IdleStatusMessage,
}

/// Mathematical content of a [`Publication`].
pub struct PublicationView {
    pub topic: Seq<char>,
    pub message: IdleStatusMessageView,
}

impl View for Publication {
    type V = PublicationView;

    open spec fn view(&self) -> PublicationView {
        PublicationView { topic: self.topic@, message: self.message@ }
    }
}

/// The topic on which the idle status of a camera is published.
pub open spec fn status_topic(camera: Seq<char>) -> Seq<char> {
    "frigate/"@ + camera + "/detection_status"@
}

/// How an idle message describes the time since the last detection: `never`
/// if there was none, else the whole seconds elapsed up to `now`, in decimal,
/// followed by ` seconds ago`.
pub open spec fn elapsed_description(last: Option<Timestamp>, now: Timestamp) -> Seq<char> {
    match last {
        None => NEVER@,
        Some(at) => decimal_digits(elapsed_secs(now, at)) + " seconds ago"@,
    }
}

/// The idle message of `camera` at time `now`, given the time of the last
/// detection.
pub open spec fn idle_message(
    camera: Seq<char>,
    last: Option<Timestamp>,
    now: Timestamp,
) -> IdleStatusMessageView {
    IdleStatusMessageView {
        status: IDLE_STATUS@,
        camera,
        message: IDLE_NOTE@,
        elapsed_description: elapsed_description(last, now),
        published_at: now.spec_secs(),
    }
}

/// What a tick publishes, given a snapshot of the presence state: the idle
/// message on the camera's status topic if nothing is tracked, and nothing
/// otherwise.
pub open spec fn publication(
    snapshot: (bool, Option<Timestamp>),
    camera: Seq<char>,
    now: Timestamp,
) -> Option<PublicationView> {
    if snapshot.0 {
        Some(
            PublicationView {
                topic: status_topic(camera),
                message: idle_message(camera, snapshot.1, now),
            },
        )
    } else {
        None
    }
}

/// Describes the time since the last detection, see [`elapsed_description`].
pub fn describe_elapsed(last: Option<Timestamp>, now: Timestamp) -> (text: String)
    ensures
        text@ == elapsed_description(last, now),
{
    match last {
        None => NEVER.to_owned(),
        Some(at) => {
            let mut text = String::new();
            push_decimal(&mut text, now.whole_secs_since(at));
            text.append(" seconds ago");
            assert(text@ =~= elapsed_description(last, now));
            text
        },
    }
}

/// Derives what a tick at time `now` publishes from a snapshot of the
/// presence state, see [`publication`].
pub fn publication_for(snapshot: (bool, Option<Timestamp>), camera: &str, now: Timestamp) -> (out:
    Option<Publication>)
    ensures
        match out {
            Some(p) => publication(snapshot, camera@, now) == Some(p@),
            None => publication(snapshot, camera@, now) is None,
        },
{
    if !snapshot.0 {
        return None;
    }
    let mut topic = "frigate/".to_owned();
    topic.append(camera);
    topic.append("/detection_status");
    let message = IdleStatusMessage {
        status: IDLE_STATUS.to_owned(),
        camera: camera.to_owned(),
        message: IDLE_NOTE.to_owned(),
        elapsed_description: describe_elapsed(snapshot.1, now),
        published_at: now.secs(),
    };
    Some(Publication { topic, message })
}

/// One tick of the publication timer at time `now`: reads the presence state
/// once and derives from it what to publish.
pub fn on_tick(state: &PresenceState, camera: &str, now: Timestamp) -> (out: Option<Publication>)
    ensures
        match out {
            Some(p) => state@.active_ids.is_empty() && p@ == (PublicationView {
                topic: status_topic(camera@),
                message: idle_message(camera@, state@.last_detection_at, now),
            }),
            None => !state@.active_ids.is_empty(),
        },
{
    publication_for(state.snapshot(), camera, now)
}

/// Camera named by a notice whose status message names none.
pub const UNKNOWN_CAMERA: &'static str = "unknown";

/// What a consumer learns from an idle status message.
#[derive(Clone, Debug, PartialEq, Eq)]
pub struct IdleNotice {
    /// The camera that is idle.
    pub camera: String,
    /// How long ago the last detection was.
    pub last_detection: String,
}

/// Mathematical content of an [`IdleNotice`].
pub struct IdleNoticeView {
    pub camera: Seq<char>,
    pub last_detection: Seq<char>,
}

impl View for IdleNotice {
    type V = IdleNoticeView;

    open spec fn view(&self) -> IdleNoticeView {
        IdleNoticeView { camera: self.camera@, last_detection: self.last_detection@ }
    }
}

/// The notice that the fields of a status message give. Only a message
/// whose status is `idle` gives one; a missing camera reads as `unknown` and
/// a missing elapsed description as `never`.
pub open spec fn idle_notice(
    status: Option<Seq<char>>,
    camera: Option<Seq<char>>,
    last_detection: Option<Seq<char>>,
) -> Option<IdleNoticeView> {
    if status == Some(IDLE_STATUS@) {
        Some(
            IdleNoticeView {
                camera: match camera {
                    Some(name) => name,
                    None => UNKNOWN_CAMERA@,
                },
                last_detection: match last_detection {
                    Some(text) => text,
                    None => NEVER@,
                },
            },
        )
    } else {
        None
    }
}

/// Reads the fields of a status message as a consumer does, see
/// [`idle_notice`].
pub fn read_idle_status(
    status: Option<String>,
    camera: Option<String>,
    last_detection: Option<String>,
) -> (notice: Option<IdleNotice>)
    ensures
        match notice {
            Some(n) => idle_notice(
                status.deep_view(),
                camera.deep_view(),
                last_detection.deep_view(),
            ) == Some(n@),
            None => idle_notice(status.deep_view(), camera.deep_view(), last_detection.deep_view())
                is None,
        },
{
    let idle = match &status {
        Some(text) => same_text(text.as_str(), IDLE_STATUS),
        None => false,
    };
    if !idle {
        return None;
    }
    let camera = match camera {
        Some(name) => name,
        None => UNKNOWN_CAMERA.to_owned(),
    };
    let last_detection = match last_detection {
        Some(text) => text,
        None => NEVER.to_owned(),
    };
    Some(IdleNotice { camera, last_detection })
}

/// The notice that a consumer takes from a status payload, given the string
/// members of the document in it: none for a payload that is no document,
/// else what the members `status`, `camera` and `last_detection` give, see
/// [`idle_notice`].
pub open spec fn idle_notice_in(members: Option<Map<Seq<char>, Seq<char>>>) -> Option<
    IdleNoticeView,
> {
    match members {
        None => None,
        Some(m) => idle_notice(
            member(m, "status"@),
            member(m, "camera"@),
            member(m, "last_detection"@),
        ),
    }
}

/// Reads a status payload as a consumer does, see [`idle_notice_in`].
pub fn read_idle_payload(payload: &[u8]) -> (notice: Option<IdleNotice>)
    ensures
        match notice {
            Some(n) => idle_notice_in(document_text_members(payload@)) == Some(n@),
            None => idle_notice_in(document_text_members(payload@)) is None,
        },
{
    let document = match parse_document(payload) {
        Some(document) => document,
        None => {
            return None;
        },
    };
    read_idle_status(
        text_member(&document, "status"),
        text_member(&document, "camera"),
        text_member(&document, "last_detection"),
    )
}

/// A consumer that reads back what a tick published finds the camera and
/// the elapsed description that went in.
pub proof fn lemma_notice_reads_back_publication(
    last: Option<Timestamp>,
    camera: Seq<char>,
    now: Timestamp,
)
    ensures
        ({
            let message = idle_message(camera, last, now);
            idle_notice(
                Some(message.status),
                Some(message.camera),
                Some(message.elapsed_description),
            ) == Some(
                IdleNoticeView { camera, last_detection: elapsed_description(last, now) },
            )
        }),
{
}

/// While something is tracked, a tick publishes nothing.
pub proof fn lemma_no_idle_message_while_present(
    last: Option<Timestamp>,
    camera: Seq<char>,
    now: Timestamp,
)
    ensures
        publication((false, last), camera, now) is None,
{
}

/// While nothing is tracked, every tick publishes one idle message, on the
/// status topic of the camera and with the camera's name in it.
pub proof fn lemma_idle_message_while_empty(
    last: Option<Timestamp>,
    camera: Seq<char>,
    now: Timestamp,
)
    ensures
        publication((true, last), camera, now) matches Some(p) && p.topic == status_topic(camera)
            && p.message.status == IDLE_STATUS@ && p.message.camera == camera
            && p.message.published_at == now.spec_secs(),
{
}

/// With nothing tracked and no detection ever seen, the idle message says
/// `never`.
pub proof fn lemma_idle_without_detection_says_never(camera: Seq<char>, now: Timestamp)
    ensures
        publication((true, None), camera, now) matches Some(p) && p.message.elapsed_description
            == NEVER@,
{
}

/// With nothing tracked and the last detection at `last`, the idle message
/// names the time from `last` to `now` in whole seconds. That number is never
/// negative, and it is the exact difference cut down to whole seconds
/// whenever `now` is not before `last`.
pub proof fn lemma_idle_names_elapsed_time(camera: Seq<char>, last: Timestamp, now: Timestamp)
    ensures
        publication((true, Some(last)), camera, now) matches Some(p)
            && p.message.elapsed_description == decimal_digits(elapsed_secs(now, last))
            + " seconds ago"@,
        elapsed_secs(now, last) >= 0,
        last.total_nanos() <= now.total_nanos() ==> elapsed_secs(now, last) * NANOS_PER_SEC
            <= now.total_nanos() - last.total_nanos() < (elapsed_secs(now, last) + 1)
            * NANOS_PER_SEC,
{
    if last.total_nanos() <= now.total_nanos() {
        let span = now.total_nanos() - last.total_nanos();
        let unit = NANOS_PER_SEC as int;
        lemma_fundamental_div_mod(span, unit);
        lemma_mod_bound(span, unit);
        assert(unit * (span / unit) == (span / unit) * unit) by (nonlinear_arith);
        assert((span / unit + 1) * unit == (span / unit) * unit + unit) by (nonlinear_arith);
    }
}

/// Over successive ticks without a new detection, the elapsed time that the
/// idle messages name never decreases, and it grows by at least `gap` when
/// the later tick comes at least `gap` seconds after the earlier one and the
/// earlier one is not before the last detection. Messages that name different
/// elapsed times differ in their description.
pub proof fn lemma_idle_elapsed_grows_across_ticks(
    last: Timestamp,
    first_tick: Timestamp,
    second_tick: Timestamp,
    gap: nat,
)
    requires
        first_tick.total_nanos() + gap * NANOS_PER_SEC <= second_tick.total_nanos(),
    ensures
        elapsed_secs(first_tick, last) <= elapsed_secs(second_tick, last),
        last.total_nanos() <= first_tick.total_nanos() ==> elapsed_secs(first_tick, last) + gap
            <= elapsed_secs(second_tick, last),
        elapsed_secs(first_tick, last) != elapsed_secs(second_tick, last) ==> elapsed_description(
            Some(last),
            first_tick,
        ) != elapsed_description(Some(last), second_tick),
{
    assert(gap * NANOS_PER_SEC >= 0) by (nonlinear_arith)
        requires
            gap >= 0,
    ;
    lemma_elapsed_grows_with_time(last, first_tick, second_tick);
    if last.total_nanos() <= first_tick.total_nanos() {
        lemma_elapsed_gains_each_second(last, first_tick, second_tick, gap);
    }
    let a = elapsed_secs(first_tick, last);
    let b = elapsed_secs(second_tick, last);
    let tail = " seconds ago"@;
    if decimal_digits(a) + tail == decimal_digits(b) + tail {
        assert(decimal_digits(a) =~= (decimal_digits(a) + tail).subrange(
            0,
            (decimal_digits(a) + tail).len() - tail.len(),
        ));
        assert(decimal_digits(b) =~= (decimal_digits(b) + tail).subrange(
            0,
            (decimal_digits(b) + tail).len() - tail.len(),
        ));
        lemma_decimal_digits_injective(a, b);
    }
}

} // verus!
