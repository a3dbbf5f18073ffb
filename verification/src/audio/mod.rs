//! Audio inputs for the playback queue.

pub mod sources;
