//! A small health and metrics sidecar: a fixed set of named readiness
//! conditions is tracked behind a reader-writer lock, their conjunction is
//! mirrored into an `up` gauge, and an HTTP surface answers liveness,
//! readiness and metrics queries.

mod http;
mod metrics;
mod readiness_probe;
mod watcher;

pub use watcher::RenderError;
pub use watcher::StopServerError;
pub use watcher::Watcher;

pub use http::ContentType;
pub use http::HttpResponse;
pub use http::conditions_json;
pub use http::json_bool;
pub use http::json_entries;
pub use http::json_entry;
pub use http::json_escaped;
pub use http::json_escaped_char;

pub use readiness_probe::AlwaysReady;
pub use readiness_probe::ConditionSet;
pub use readiness_probe::ReadinessProbe;
pub use readiness_probe::all_ready;
pub use readiness_probe::apply_marks;
pub use readiness_probe::names_seq;
pub use readiness_probe::up_value_of;

pub use readiness_probe::lemma_apply_marks_len;
pub use readiness_probe::lemma_empty_set_always_ready;
pub use readiness_probe::lemma_last_unmet_mark_completes_readiness;
pub use readiness_probe::lemma_mark_not_ready_breaks_readiness;
pub use readiness_probe::lemma_not_ready_until_marked;
pub use readiness_probe::lemma_unmet_condition_blocks_readiness;
