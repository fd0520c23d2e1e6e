use vstd::prelude::*;
use vstd::string::StringExecFns;

use crate::level::Level;

verus! {

/// The label an event is tagged with.
///
/// A tag is opaque to the rest of the model: it is captured together with an
/// event and handed back unchanged. An event constructed without an explicit
/// tag is given the default tag for its level, so every event exposes a tag.
#[derive(Clone, Debug, PartialEq, Eq)]
pub struct Tag {
    label: String,
}

/// The label of the default tag for events captured at `level` without an
/// explicit tag: the level's canonical name in lower case.
pub open spec fn default_tag_label(level: Level) -> Seq<char> {
    match level {
        Level::Trace => "trace"@,
        Level::Debug => "debug"@,
        Level::Info => "info"@,
        Level::Warn => "warn"@,
        Level::Error => "error"@,
    }
}

impl View for Tag {
    type V = Seq<char>;

    closed spec fn view(&self) -> Seq<char> {
        self.label@
    }
}

impl Tag {
    /// Makes a tag with the given label.
    pub fn new(label: String) -> (t: Tag)
        ensures
            t@ == label@,
    {
        Tag { label }
    }

    /// Makes the default tag for events captured at `level`.
    pub fn for_level(level: Level) -> (t: Tag)
        ensures
            t@ == default_tag_label(level),
    {
        match level {
            Level::Trace => Tag { label: String::from_str("trace") },
            Level::Debug => Tag { label: String::from_str("debug") },
            Level::Info => Tag { label: String::from_str("info") },
            Level::Warn => Tag { label: String::from_str("warn") },
            Level::Error => Tag { label: String::from_str("error") },
        }
    }

    /// Returns the tag's label.
    pub fn label(&self) -> (r: &str)
        ensures
            r@ == self@,
    {
        self.label.as_str()
    }
}

} // verus!
