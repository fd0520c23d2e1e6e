//! Core data model for hierarchical log capture: a forest of trees whose
//! nodes are either leaf events or named spans. Spans carry two duration
//! counters and an ordered list of child nodes; events carry a message, a
//! tag, and key-value fields. The model is frozen after capture: this crate
//! offers construction-time assembly, read access, typed extraction of the
//! two node kinds, and the per-span duration accounting.

mod error;
mod field;
mod level;
mod tag;
mod tree;

pub use error::ExpectedEventError;
pub use error::ExpectedSpanError;
pub use field::Field;
pub use level::Level;
pub use tag::default_tag_label;
pub use tag::Tag;
pub use tree::lemma_empty_span_has_zero_durations;
pub use tree::lemma_inner_duration_within_total;
pub use tree::lemma_total_is_inner_plus_base;
pub use tree::Event;
pub use tree::Shared;
pub use tree::Span;
pub use tree::Tree;
