//! Topics of the bus and what the messages on them carry.

use crate::text::{begins_with, chars_of, contains, occurs_in, same_text};
use vstd::prelude::*;

verus! {

/// What the messages on a topic carry.
#[derive(Clone, Copy, Debug, PartialEq, Eq, Structural)]
pub enum TopicClass {
    /// Lifecycle events of tracked objects.
    Events,
    /// The idle status of a camera.
    DetectionStatus,
    /// Raw detection data.
    Detection,
    /// Anything else, such as statistics.
    Other,
}

/// The class of a topic. The event topic and everything below it carries
/// events. Of the other topics, those that hold `/detection_status` carry an
/// idle status, and those that hold `/detection` without the `_status` carry
/// detection data.
pub open spec fn topic_class(topic: Seq<char>) -> TopicClass {
    if topic == "frigate/events"@ || "frigate/events/"@.is_prefix_of(topic) {
        TopicClass::Events
    } else if occurs_in("/detection_status"@, topic) {
        TopicClass::DetectionStatus
    } else if occurs_in("/detection"@, topic) {
        TopicClass::Detection
    } else {
        TopicClass::Other
    }
}

/// Sorts a topic into its class, see [`topic_class`].
pub fn classify_topic(topic: &str) -> (class: TopicClass)
    ensures
        class == topic_class(topic@),
{
    if same_text(topic, "frigate/events") {
        return TopicClass::Events;
    }
    let chars = chars_of(topic);
    if begins_with(&chars, &chars_of("frigate/events/")) {
        TopicClass::Events
    } else if contains(&chars, &chars_of("/detection_status")) {
        TopicClass::DetectionStatus
    } else if contains(&chars, &chars_of("/detection")) {
        TopicClass::Detection
    } else {
        TopicClass::Other
    }
}

} // verus!
