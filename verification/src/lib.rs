//! Presence tracking over a stream of object-detection lifecycle events.
//!
//! Detections arrive as `new` / `update` / `end` events, one per tracked
//! object. The library keeps the set of objects that are currently tracked
//! together with the time of the latest sighting, and derives from it the idle
//! status that is republished on a fixed cadence while nothing is tracked.
//!
//! - [`event`]: lifecycle events, on the wire and decoded.
//! - [`presence`]: the presence state with its two operations, and what
//!   holds of it after any sequence of events.
//! - [`ingest`]: what each delivery from the bus does to the presence state.
//! - [`publish`]: the idle status derived on each tick, and how a consumer
//!   reads it.
//! - [`resilience`]: the retry policy for transport failures.
//! - [`config`], [`topic`], [`clock`], [`text`], [`json`]: settings, topic
//!   classes, timestamps, text helpers and the JSON boundary.

pub mod clock;
pub mod config;
pub mod event;
pub mod ingest;
pub mod json;
pub mod presence;
pub mod publish;
pub mod resilience;
pub mod text;
pub mod topic;
