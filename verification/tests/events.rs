use detection_monitor::event::{DecodeError, DetectionEvent, EventKind, WireObject, WireRecord};

fn text(s: &str) -> Option<String> {
    Some(s.to_string())
}

fn record(event_type: Option<&str>, id: Option<&str>) -> WireRecord {
    WireRecord {
        event_type: event_type.map(str::to_string),
        after: Some(WireObject { id: id.map(str::to_string), label: None, camera: None }),
    }
}

#[test]
fn tags_map_to_kinds() {
    assert_eq!(EventKind::from_tag("new"), EventKind::New);
    assert_eq!(EventKind::from_tag("update"), EventKind::Update);
    assert_eq!(EventKind::from_tag("end"), EventKind::End);
}

#[test]
fn unrecognised_tags_are_unknown() {
    assert_eq!(EventKind::from_tag(""), EventKind::Unknown);
    assert_eq!(EventKind::from_tag("unknown"), EventKind::Unknown);
    assert_eq!(EventKind::from_tag("New"), EventKind::Unknown);
    assert_eq!(EventKind::from_tag("new "), EventKind::Unknown);
    assert_eq!(EventKind::from_tag("ended"), EventKind::Unknown);
    assert_eq!(EventKind::from_tag("updat"), EventKind::Unknown);
}

#[test]
fn only_new_and_update_mark_presence() {
    assert!(EventKind::New.marks_presence());
    assert!(EventKind::Update.marks_presence());
    assert!(!EventKind::End.marks_presence());
    assert!(!EventKind::Unknown.marks_presence());
}

#[test]
fn new_event_has_no_label_or_camera() {
    let event = DetectionEvent::new(EventKind::Update, "abc");
    assert_eq!(
        event,
        DetectionEvent {
            kind: EventKind::Update,
            object_id: "abc".to_string(),
            label: None,
            camera: None
        }
    );
}

#[test]
fn full_record_decodes() {
    let wire = WireRecord {
        event_type: text("new"),
        after: Some(WireObject { id: text("a1"), label: text("person"), camera: text("cam1") }),
    };
    assert_eq!(
        DetectionEvent::from_wire(wire),
        Ok(DetectionEvent {
            kind: EventKind::New,
            object_id: "a1".to_string(),
            label: text("person"),
            camera: text("cam1"),
        })
    );
}

#[test]
fn record_without_tag_is_of_unknown_kind() {
    let decoded = DetectionEvent::from_wire(record(None, Some("a"))).expect("an event");
    assert_eq!(decoded.kind, EventKind::Unknown);
    assert_eq!(decoded.object_id, "a");
}

#[test]
fn record_with_strange_tag_is_of_unknown_kind() {
    let decoded = DetectionEvent::from_wire(record(Some("snapshot"), Some("a"))).expect("an event");
    assert_eq!(decoded.kind, EventKind::Unknown);
}

#[test]
fn record_without_id_is_rejected() {
    assert_eq!(DetectionEvent::from_wire(record(Some("new"), None)), Err(DecodeError::MissingId));
}

#[test]
fn record_without_object_is_rejected() {
    let wire = WireRecord { event_type: text("new"), after: None };
    assert_eq!(DetectionEvent::from_wire(wire), Err(DecodeError::MissingObject));
}

#[test]
fn empty_id_is_an_id() {
    let decoded = DetectionEvent::from_wire(record(Some("end"), Some(""))).expect("an event");
    assert_eq!(decoded.kind, EventKind::End);
    assert_eq!(decoded.object_id, "");
}
