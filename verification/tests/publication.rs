use detection_monitor::clock::Timestamp;
use detection_monitor::event::{DetectionEvent, EventKind, WireObject, WireRecord};
use detection_monitor::ingest::{Inbound, Ingestion, EVENT_TOPIC};
use detection_monitor::presence::PresenceState;
use detection_monitor::publish::{
    describe_elapsed, on_tick, publication_for, read_idle_payload, read_idle_status, IdleNotice,
    IdleStatusMessage,
    Publication, IDLE_NOTE, IDLE_STATUS, NEVER, PUBLISH_PERIOD_SECS, UNKNOWN_CAMERA,
};
use detection_monitor::resilience::RetryPolicy;

fn secs(s: u64) -> Timestamp {
    Timestamp::from_secs(s)
}

fn at(s: u64, nanos: u32) -> Timestamp {
    Timestamp::new(s, nanos).expect("a fraction of a second")
}

fn message(tag: &str, id: &str, camera: Option<&str>) -> Inbound {
    Inbound::Message {
        topic: EVENT_TOPIC.to_string(),
        record: Some(WireRecord {
            event_type: Some(tag.to_string()),
            after: Some(WireObject {
                id: Some(id.to_string()),
                label: None,
                camera: camera.map(str::to_string),
            }),
        }),
    }
}

#[test]
fn constants_match_the_wire_format() {
    assert_eq!(PUBLISH_PERIOD_SECS, 2);
    assert_eq!(IDLE_STATUS, "idle");
    assert_eq!(IDLE_NOTE, "No objects detected");
    assert_eq!(NEVER, "never");
    assert_eq!(UNKNOWN_CAMERA, "unknown");
}

#[test]
fn empty_and_unset_publishes_never() {
    let state = PresenceState::new();
    let published = on_tick(&state, "demo", secs(1_700_000_000));
    assert_eq!(
        published,
        Some(Publication {
            topic: "frigate/demo/detection_status".to_string(),
            message: IdleStatusMessage {
                status: "idle".to_string(),
                camera: "demo".to_string(),
                message: "No objects detected".to_string(),
                elapsed_description: "never".to_string(),
                published_at: 1_700_000_000,
            },
        })
    );
}

#[test]
fn empty_with_detection_publishes_the_elapsed_seconds() {
    let mut state = PresenceState::new();
    state.apply(&DetectionEvent::new(EventKind::New, "a"), secs(100));
    state.apply(&DetectionEvent::new(EventKind::End, "a"), secs(101));
    let published = on_tick(&state, "yard", secs(142)).expect("an idle message");
    assert_eq!(published.topic, "frigate/yard/detection_status");
    assert_eq!(published.message.status, "idle");
    assert_eq!(published.message.camera, "yard");
    assert_eq!(published.message.message, "No objects detected");
    assert_eq!(published.message.elapsed_description, "42 seconds ago");
    assert_eq!(published.message.published_at, 142);
}

#[test]
fn elapsed_is_cut_down_to_whole_seconds() {
    assert_eq!(describe_elapsed(Some(at(10, 900_000_000)), at(12, 100_000_000)), "1 seconds ago");
    assert_eq!(describe_elapsed(Some(at(10, 0)), at(10, 999_999_999)), "0 seconds ago");
    assert_eq!(describe_elapsed(Some(secs(0)), secs(86_400)), "86400 seconds ago");
    assert_eq!(describe_elapsed(None, secs(86_400)), "never");
}

#[test]
fn description_is_zero_when_the_clock_went_back() {
    assert_eq!(describe_elapsed(Some(secs(50)), secs(40)), "0 seconds ago");
    let published = publication_for((true, Some(secs(50))), "demo", secs(40)).expect("idle");
    assert_eq!(published.message.elapsed_description, "0 seconds ago");
    assert_eq!(published.message.published_at, 40);
}

#[test]
fn elapsed_grows_over_successive_empty_ticks() {
    let mut state = PresenceState::new();
    state.apply(&DetectionEvent::new(EventKind::Update, "a"), secs(10));
    state.apply(&DetectionEvent::new(EventKind::End, "a"), secs(10));
    let mut described = Vec::new();
    let mut tick = 10;
    for _ in 0..5 {
        tick += PUBLISH_PERIOD_SECS;
        described.push(on_tick(&state, "demo", secs(tick)).expect("idle").message.elapsed_description);
    }
    assert_eq!(
        described,
        vec!["2 seconds ago", "4 seconds ago", "6 seconds ago", "8 seconds ago", "10 seconds ago"]
    );
}

#[test]
fn nothing_is_published_while_something_is_tracked() {
    let mut state = PresenceState::new();
    state.apply(&DetectionEvent::new(EventKind::New, "a"), secs(10));
    assert_eq!(on_tick(&state, "demo", secs(12)), None);
    assert_eq!(publication_for((false, Some(secs(10))), "demo", secs(12)), None);
    assert_eq!(publication_for((false, None), "demo", secs(12)), None);
}

#[test]
fn publication_follows_the_snapshot() {
    let published = publication_for((true, Some(secs(7))), "cam/1", secs(9)).expect("idle");
    assert_eq!(published.topic, "frigate/cam/1/detection_status");
    assert_eq!(published.message.camera, "cam/1");
    assert_eq!(published.message.elapsed_description, "2 seconds ago");
    let published = publication_for((true, None), "", secs(9)).expect("idle");
    assert_eq!(published.topic, "frigate//detection_status");
    assert_eq!(published.message.elapsed_description, "never");
}

#[test]
fn scenario_new_then_end_then_two_ticks() {
    let (mut activity, _) = Ingestion::begin(RetryPolicy::fixed());
    let mut state = PresenceState::new();
    let start = 1_000;
    activity.on_inbound(&mut state, message("new", "a", Some("cam1")), secs(start));
    assert_eq!(on_tick(&state, "cam1", secs(start + 2)), None);
    activity.on_inbound(&mut state, message("end", "a", Some("cam1")), secs(start + 3));

    let first = on_tick(&state, "cam1", secs(start + 4)).expect("one idle message per tick");
    let second = on_tick(&state, "cam1", secs(start + 6)).expect("one idle message per tick");
    assert_eq!(first.topic, "frigate/cam1/detection_status");
    assert_eq!(second.topic, "frigate/cam1/detection_status");
    assert_eq!(first.message.camera, "cam1");
    assert_eq!(second.message.camera, "cam1");
    assert_eq!(first.message.status, "idle");
    assert_eq!(second.message.status, "idle");
    assert_eq!(first.message.elapsed_description, "4 seconds ago");
    assert_eq!(second.message.elapsed_description, "6 seconds ago");
    assert_eq!(first.message.published_at, start + 4);
    assert_eq!(second.message.published_at, start + 6);
}

#[test]
fn scenario_two_new_objects_then_a_tick() {
    let (mut activity, _) = Ingestion::begin(RetryPolicy::fixed());
    let mut state = PresenceState::new();
    activity.on_inbound(&mut state, message("new", "a", None), secs(1));
    activity.on_inbound(&mut state, message("new", "b", None), secs(1));
    assert_eq!(on_tick(&state, "demo", secs(2)), None);
    assert_eq!(state.active_count(), 2);
}

#[test]
fn idle_resumes_only_when_every_object_ended() {
    let (mut activity, _) = Ingestion::begin(RetryPolicy::fixed());
    let mut state = PresenceState::new();
    activity.on_inbound(&mut state, message("new", "a", None), secs(1));
    activity.on_inbound(&mut state, message("new", "b", None), secs(2));
    activity.on_inbound(&mut state, message("end", "a", None), secs(3));
    assert_eq!(on_tick(&state, "demo", secs(4)), None);
    activity.on_inbound(&mut state, message("end", "b", None), secs(5));
    let published = on_tick(&state, "demo", secs(6)).expect("idle");
    assert_eq!(published.message.elapsed_description, "4 seconds ago");
}

#[test]
fn consumer_reads_an_idle_status() {
    let notice = read_idle_status(
        Some("idle".to_string()),
        Some("yard".to_string()),
        Some("3 seconds ago".to_string()),
    );
    assert_eq!(
        notice,
        Some(IdleNotice { camera: "yard".to_string(), last_detection: "3 seconds ago".to_string() })
    );
}

#[test]
fn consumer_fills_in_missing_fields() {
    let notice = read_idle_status(Some("idle".to_string()), None, None);
    assert_eq!(
        notice,
        Some(IdleNotice { camera: "unknown".to_string(), last_detection: "never".to_string() })
    );
}

#[test]
fn consumer_ignores_other_statuses() {
    assert_eq!(read_idle_status(None, Some("yard".to_string()), None), None);
    assert_eq!(read_idle_status(Some("active".to_string()), Some("yard".to_string()), None), None);
    assert_eq!(read_idle_status(Some("Idle".to_string()), None, None), None);
    assert_eq!(read_idle_status(Some("".to_string()), None, None), None);
}

#[test]
fn consumer_reads_back_what_was_published() {
    let published = publication_for((true, Some(secs(1))), "cam1", secs(8)).expect("idle").message;
    let notice = read_idle_status(
        Some(published.status),
        Some(published.camera),
        Some(published.elapsed_description),
    );
    assert_eq!(
        notice,
        Some(IdleNotice { camera: "cam1".to_string(), last_detection: "7 seconds ago".to_string() })
    );
}

fn notice(camera: &str, last_detection: &str) -> Option<IdleNotice> {
    Some(IdleNotice { camera: camera.to_string(), last_detection: last_detection.to_string() })
}

#[test]
fn payload_with_idle_status_gives_a_notice() {
    let payload = br#"{"status":"idle","camera":"yard","message":"No objects detected","timestamp":1700000000,"last_detection":"12 seconds ago"}"#;
    assert_eq!(read_idle_payload(payload), notice("yard", "12 seconds ago"));
}

#[test]
fn payload_members_may_come_in_any_order_and_with_blanks() {
    let payload = b" { \"last_detection\" : \"never\" ,\n \"extra\" : [1, 2] , \"camera\" : \"c\\u0061m\" , \"status\" : \"idle\" } ";
    assert_eq!(read_idle_payload(payload), notice("cam", "never"));
}

#[test]
fn payload_without_camera_or_elapsed_is_filled_in() {
    assert_eq!(read_idle_payload(br#"{"status":"idle"}"#), notice("unknown", "never"));
    assert_eq!(
        read_idle_payload(br#"{"status":"idle","camera":null,"last_detection":null}"#),
        notice("unknown", "never")
    );
    assert_eq!(
        read_idle_payload(br#"{"status":"idle","camera":7,"last_detection":["never"]}"#),
        notice("unknown", "never")
    );
}

#[test]
fn payload_with_another_status_gives_no_notice() {
    assert_eq!(read_idle_payload(br#"{"status":"active","camera":"yard"}"#), None);
    assert_eq!(read_idle_payload(br#"{"camera":"yard"}"#), None);
    assert_eq!(read_idle_payload(br#"{"status":null,"camera":"yard"}"#), None);
    assert_eq!(read_idle_payload(br#"{"status":["idle"],"camera":"yard"}"#), None);
    assert_eq!(read_idle_payload(br#"{"Status":"idle","camera":"yard"}"#), None);
}

#[test]
fn payload_that_is_no_object_gives_no_notice() {
    assert_eq!(read_idle_payload(br#""idle""#), None);
    assert_eq!(read_idle_payload(br#"["status","idle"]"#), None);
    assert_eq!(read_idle_payload(b"null"), None);
    assert_eq!(read_idle_payload(b"17"), None);
}

#[test]
fn payload_that_is_no_document_gives_no_notice() {
    assert_eq!(read_idle_payload(b""), None);
    assert_eq!(read_idle_payload(b"idle"), None);
    assert_eq!(read_idle_payload(br#"{"status":"idle""#), None);
    assert_eq!(read_idle_payload(br#"{"status":"idle"} trailing"#), None);
    assert_eq!(read_idle_payload(&[0xff, 0xfe, 0x00]), None);
}

#[test]
fn consumer_reads_the_payload_of_a_publication() {
    let published = publication_for((true, Some(secs(3))), "cam1", secs(8)).expect("idle").message;
    let payload = format!(
        "{{\"status\":\"{}\",\"camera\":\"{}\",\"message\":\"{}\",\"timestamp\":{},\"last_detection\":\"{}\"}}",
        published.status,
        published.camera,
        published.message,
        published.published_at,
        published.elapsed_description
    );
    assert_eq!(read_idle_payload(payload.as_bytes()), notice("cam1", "5 seconds ago"));
}
