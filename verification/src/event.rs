//! The event model: lifecycle events as they arrive on the wire and as the
//! presence state consumes them.

use crate::text::same_text;
use vstd::prelude::*;

verus! {

/// What a lifecycle event says about its object.
#[derive(Clone, Copy, Debug, PartialEq, Eq, Structural)]
pub enum EventKind {
    /// The object started being tracked.
    New,
    /// The object is still being tracked.
    Update,
    /// The object stopped being tracked.
    End,
    /// Any tag that is none of the above; such events change nothing.
    Unknown,
}

impl EventKind {
    /// The kind that a wire tag denotes. Tags are matched exactly; every tag
    /// other than `new`, `update` and `end` is `Unknown`.
    pub open spec fn of_tag(tag: Seq<char>) -> EventKind {
        if tag == "new"@ {
            EventKind::New
        } else if tag == "update"@ {
            EventKind::Update
        } else if tag == "end"@ {
            EventKind::End
        } else {
            EventKind::Unknown
        }
    }

    /// Whether an event of this kind reports its object as present.
    pub open spec fn spec_marks_presence(self) -> bool {
        self is New || self is Update
    }

    /// Reads the kind off a wire tag.
    pub fn from_tag(tag: &str) -> (kind: EventKind)
        ensures
            kind == EventKind::of_tag(tag@),
    {
        if same_text(tag, "new") {
            EventKind::New
        } else if same_text(tag, "update") {
            EventKind::Update
        } else if same_text(tag, "end") {
            EventKind::End
        } else {
            EventKind::Unknown
        }
    }

    /// Whether an event of this kind reports its object as present.
    #[verifier::when_used_as_spec(spec_marks_presence)]
    pub fn marks_presence(self) -> (present: bool)
        ensures
            present == self.spec_marks_presence(),
    {
        match self {
            EventKind::New | EventKind::Update => true,
            EventKind::End | EventKind::Unknown => false,
        }
    }
}

/// The object part of a wire record, with every field as it was found.
#[derive(Clone, Debug, PartialEq, Eq)]
pub struct WireObject {
    /// Identifier of the tracked object.
    pub id: Option<String>,
    /// What the object was recognised as.
    pub label: Option<String>,
    /// The camera that saw it.
    pub camera: Option<String>,
}

/// A lifecycle record as it arrives: a kind tag and the object's state after
/// the event.
#[derive(Clone, Debug, PartialEq, Eq)]
pub struct WireRecord {
    /// The kind tag.
    pub event_type: Option<String>,
    /// The object after the event.
    pub after: Option<WireObject>,
}

/// Mathematical content of a [`WireObject`].
pub struct WireObjectView {
    pub id: Option<Seq<char>>,
    pub label: Option<Seq<char>>,
    pub camera: Option<Seq<char>>,
}

/// Mathematical content of a [`WireRecord`].
pub struct WireRecordView {
    pub event_type: Option<Seq<char>>,
    pub after: Option<WireObjectView>,
}

impl View for WireObject {
    type V = WireObjectView;

    open spec fn view(&self) -> WireObjectView {
        WireObjectView {
            id: self.id.deep_view(),
            label: self.label.deep_view(),
            camera: self.camera.deep_view(),
        }
    }
}

impl View for WireRecord {
    type V = WireRecordView;

    open spec fn view(&self) -> WireRecordView {
        WireRecordView {
            event_type: self.event_type.deep_view(),
            after: match self.after {
                Some(object) => Some(object@),
                None => None,
            },
        }
    }
}

/// Why a wire record is not a detection event.
#[derive(Clone, Copy, Debug, PartialEq, Eq, Structural)]
pub enum DecodeError {
    /// The record carries no object.
    MissingObject,
    /// The object carries no identifier.
    MissingId,
}

/// A lifecycle event of one tracked object.
#[derive(Clone, Debug, PartialEq, Eq)]
pub struct DetectionEvent {
    /// What happened to the object.
    pub kind: EventKind,
    /// Identifier of the tracked object.
    pub object_id: String,
    /// What the object was recognised as; informational only.
    pub label: Option<String>,
    /// The camera that saw it.
    pub camera: Option<String>,
}

/// Mathematical content of a [`DetectionEvent`].
pub struct DetectionEventView {
    pub kind: EventKind,
    pub object_id: Seq<char>,
    pub label: Option<Seq<char>>,
    pub camera: Option<Seq<char>>,
}

impl View for DetectionEvent {
    type V = DetectionEventView;

    open spec fn view(&self) -> DetectionEventView {
        DetectionEventView {
            kind: self.kind,
            object_id: self.object_id@,
            label: self.label.deep_view(),
            camera: self.camera.deep_view(),
        }
    }
}

/// The event that a wire record denotes. A record without an object, or
/// whose object has no identifier, denotes none. A record without a kind tag
/// denotes an event of unknown kind.
pub open spec fn decode(record: WireRecordView) -> Result<DetectionEventView, DecodeError> {
    match record.after {
        None => Err(DecodeError::MissingObject),
        Some(object) => match object.id {
            None => Err(DecodeError::MissingId),
            Some(id) => Ok(
                DetectionEventView {
                    kind: match record.event_type {
                        Some(tag) => EventKind::of_tag(tag),
                        None => EventKind::Unknown,
                    },
                    object_id: id,
                    label: object.label,
                    camera: object.camera,
                },
            ),
        },
    }
}

impl DetectionEvent {
    /// An event of the given kind for the given object, without label or
    /// camera.
    pub fn new(kind: EventKind, object_id: &str) -> (event: DetectionEvent)
        ensures
            event@ == (DetectionEventView {
                kind,
                object_id: object_id@,
                label: None,
                camera: None,
            }),
    {
        DetectionEvent { kind, object_id: object_id.to_owned(), label: None, camera: None }
    }

    /// Turns a wire record into the event it denotes, see [`decode`].
    pub fn from_wire(record: WireRecord) -> (decoded: Result<DetectionEvent, DecodeError>)
        ensures
            match decoded {
                Ok(event) => decode(record@) == Ok::<DetectionEventView, DecodeError>(event@),
                Err(error) => decode(record@) == Err::<DetectionEventView, DecodeError>(error),
            },
    {
        let WireRecord { event_type, after } = record;
        let object = match after {
            Some(object) => object,
            None => {
                return Err(DecodeError::MissingObject);
            },
        };
        let WireObject { id, label, camera } = object;
        let object_id = match id {
            Some(id) => id,
            None => {
                return Err(DecodeError::MissingId);
            },
        };
        let kind = match &event_type {
            Some(tag) => EventKind::from_tag(tag.as_str()),
            None => EventKind::Unknown,
        };
        Ok(DetectionEvent { kind, object_id, label, camera })
    }
}

} // verus!
