//! A download-job manager: job identity, a per-job state machine,
//! an insertion-ordered job registry, worker checkpoint logic,
//! deduplication handling, and log capture with failure summaries.

pub mod pane;
pub mod record;
pub mod registry;
pub mod render;
pub mod state;
pub mod summary;
