//! Core of a small-room voice conferencing system: declarative stage
//! descriptors, pipeline graphs with a forward-only lifecycle, a named
//! audio-bus rendezvous between independently owned pipelines, and the
//! per-thread supervision logic that drives each pipeline to a terminal
//! outcome. The media engine itself (network receive, codecs, device
//! output) is an external collaborator; this crate owns the topology and
//! lifecycle rules and proves them.

pub mod bus;
pub mod graph;
pub mod name;
pub mod room;
pub mod stage;
pub mod supervisor;
