use vstd::prelude::*;

use crate::error::ExpectedEventError;
use crate::error::ExpectedSpanError;
use crate::field::Field;
use crate::level::Level;
use crate::tag::default_tag_label;
use crate::tag::Tag;

verus! {

/// Attributes shared by events and spans: an optional process-unique
/// identifier, an optional capture time, and the severity level. The
/// identifier and the time are absent when the capture layer does not stamp
/// nodes with them.
#[derive(Clone, Copy, Debug, PartialEq, Eq)]
pub struct Shared {
    /// Identifier of the node, as a 128-bit value, when the capture layer
    /// stamps nodes with one.
    pub uuid: Option<u128>,
    /// When the event occurred or the span opened, in nanoseconds since the
    /// Unix epoch, when the capture layer stamps nodes with a time.
    pub timestamp: Option<i64>,
    /// The level the event or span occurred at.
    pub level: Level,
}

/// A leaf node of the log tree: one occurrence captured at an
/// instrumentation point, frozen at creation.
#[derive(Debug)]
pub struct Event {
    shared: Shared,
    message: Option<String>,
    tag: Tag,
    fields: Vec<Field>,
}

/// An internal node of the log tree: a named interval that was open for
/// `total_duration` nanoseconds, of which `inner_duration` nanoseconds were
/// spent in nested spans, and that collected an ordered list of child nodes
/// while it was open.
#[derive(Debug)]
pub struct Span {
    shared: Shared,
    name: String,
    total_duration: u64,
    inner_duration: u64,
    children: Vec<Tree>,
}

/// A node of the log tree: either a leaf [`Event`] or an internal [`Span`].
/// A forest — the result of one capture — is an ordered sequence of trees.
#[derive(Debug)]
pub enum Tree {
    Event(Event),
    Span(Span),
}

impl Event {
    /// The shared header of the event.
    pub closed spec fn spec_shared(self) -> Shared {
        self.shared
    }

    /// The message of the event, if one was supplied.
    pub closed spec fn spec_message(self) -> Option<Seq<char>> {
        match self.message {
            Some(m) => Some(m@),
            None => None,
        }
    }

    /// The label of the event's tag.
    pub closed spec fn spec_tag(self) -> Seq<char> {
        self.tag@
    }

    /// The fields recorded with the event, in capture order.
    pub closed spec fn spec_fields(self) -> Seq<Field> {
        self.fields@
    }

    /// Makes an event, frozen at creation. If no tag is supplied, the
    /// default tag for `shared.level` is attached, so the event always
    /// exposes a tag.
    pub fn new(shared: Shared, message: Option<String>, tag: Option<Tag>, fields: Vec<Field>) -> (e:
        Event)
        ensures
            e.spec_shared() == shared,
            e.spec_message() == (match message {
                Some(m) => Some(m@),
                None => None::<Seq<char>>,
            }),
            e.spec_tag() == (match tag {
                Some(t) => t@,
                None => default_tag_label(shared.level),
            }),
            e.spec_fields() == fields@,
    {
        let tag_value = match tag {
            Some(t) => t,
            None => Tag::for_level(shared.level),
        };
        Event { shared, message, tag: tag_value, fields }
    }

    /// Returns the event's identifier, when one was attached.
    pub fn uuid(&self) -> (r: Option<u128>)
        ensures
            r == self.spec_shared().uuid,
    {
        self.shared.uuid
    }

    /// Returns when the event occurred, in nanoseconds since the Unix epoch,
    /// when a capture time was attached.
    pub fn timestamp(&self) -> (r: Option<i64>)
        ensures
            r == self.spec_shared().timestamp,
    {
        self.shared.timestamp
    }

    /// Returns the event's level.
    pub fn level(&self) -> (r: Level)
        ensures
            r == self.spec_shared().level,
    {
        self.shared.level
    }

    /// Returns the event's message, if one was supplied.
    pub fn message(&self) -> (r: Option<&str>)
        ensures
            match self.spec_message() {
                Some(m) => r matches Some(s) && s@ == m,
                None => r is None,
            },
    {
        match &self.message {
            Some(m) => Some(m.as_str()),
            None => None,
        }
    }

    /// Returns the event's tag. An event always holds a tag: if none was
    /// supplied at construction, it holds the default tag for its level.
    pub fn tag(&self) -> (r: &Tag)
        ensures
            r@ == self.spec_tag(),
    {
        &self.tag
    }

    /// Returns the event's fields, in capture order.
    pub fn fields(&self) -> (r: &[Field])
        ensures
            r@ == self.spec_fields(),
    {
        self.fields.as_slice()
    }
}

impl Span {
    /// The shared header of the span.
    pub closed spec fn spec_shared(self) -> Shared {
        self.shared
    }

    /// The name of the span.
    pub closed spec fn spec_name(self) -> Seq<char> {
        self.name@
    }

    /// The total time the span was open, in nanoseconds.
    pub closed spec fn spec_total_duration(self) -> u64 {
        self.total_duration
    }

    /// The aggregate time nested spans were open, in nanoseconds.
    pub closed spec fn spec_inner_duration(self) -> u64 {
        self.inner_duration
    }

    /// The child nodes of the span, in the order they were appended.
    pub closed spec fn spec_children(self) -> Seq<Tree> {
        self.children@
    }

    /// The time the span was open but no nested span was: its total duration
    /// less the aggregate duration of nested spans.
    pub open spec fn spec_base_duration(self) -> int {
        self.spec_total_duration() - self.spec_inner_duration()
    }

    /// The accounting invariant of a span: nested spans cannot be open
    /// longer, in aggregate, than the span itself. The capture layer that
    /// accumulates the two counters upholds this; a violation is a
    /// data-integrity fault in the producer, not a recoverable condition.
    pub open spec fn well_formed(self) -> bool {
        self.spec_inner_duration() <= self.spec_total_duration()
    }

    /// Makes a span named `name` under the given header, with zero total
    /// duration, zero inner duration, and no children: the canonical state
    /// of a span at the moment it opens.
    pub fn new(shared: Shared, name: String) -> (s: Span)
        ensures
            s.spec_shared() == shared,
            s.spec_name() == name@,
            s.spec_total_duration() == 0,
            s.spec_inner_duration() == 0,
            s.spec_children() == Seq::<Tree>::empty(),
            s.well_formed(),
    {
        Span { shared, name, total_duration: 0, inner_duration: 0, children: Vec::new() }
    }

    /// Records the total time the span was open, in nanoseconds. The time
    /// already recorded for nested spans must not exceed the new total, so
    /// that the accounting invariant is preserved.
    pub fn set_total_duration(&mut self, nanos: u64)
        requires
            old(self).spec_inner_duration() <= nanos,
        ensures
            final(self).spec_total_duration() == nanos,
            final(self).spec_shared() == old(self).spec_shared(),
            final(self).spec_name() == old(self).spec_name(),
            final(self).spec_inner_duration() == old(self).spec_inner_duration(),
            final(self).spec_children() == old(self).spec_children(),
            final(self).well_formed(),
    {
        self.total_duration = nanos;
    }

    /// Records the aggregate time nested spans were open, in nanoseconds.
    /// It must not exceed the recorded total, so that the accounting
    /// invariant is preserved.
    pub fn set_inner_duration(&mut self, nanos: u64)
        requires
            nanos <= old(self).spec_total_duration(),
        ensures
            final(self).spec_inner_duration() == nanos,
            final(self).spec_shared() == old(self).spec_shared(),
            final(self).spec_name() == old(self).spec_name(),
            final(self).spec_total_duration() == old(self).spec_total_duration(),
            final(self).spec_children() == old(self).spec_children(),
            final(self).well_formed(),
    {
        self.inner_duration = nanos;
    }

    /// Appends one child node to the span, after every child appended so
    /// far. Children are append-only during construction and frozen once the
    /// span closes; nothing removes or reorders them.
    pub fn append_child(&mut self, child: Tree)
        ensures
            final(self).spec_children() == old(self).spec_children().push(child),
            final(self).spec_shared() == old(self).spec_shared(),
            final(self).spec_name() == old(self).spec_name(),
            final(self).spec_total_duration() == old(self).spec_total_duration(),
            final(self).spec_inner_duration() == old(self).spec_inner_duration(),
    {
        self.children.push(child);
    }

    /// Returns the span's identifier, when one was attached.
    pub fn uuid(&self) -> (r: Option<u128>)
        ensures
            r == self.spec_shared().uuid,
    {
        self.shared.uuid
    }

    /// Returns when the span opened, in nanoseconds since the Unix epoch,
    /// when a capture time was attached.
    pub fn timestamp(&self) -> (r: Option<i64>)
        ensures
            r == self.spec_shared().timestamp,
    {
        self.shared.timestamp
    }

    /// Returns the span's level.
    pub fn level(&self) -> (r: Level)
        ensures
            r == self.spec_shared().level,
    {
        self.shared.level
    }

    /// Returns the span's name.
    pub fn name(&self) -> (r: &str)
        ensures
            r@ == self.spec_name(),
    {
        self.name.as_str()
    }

    /// Returns the span's child nodes, in the order they were appended.
    pub fn children(&self) -> (r: &[Tree])
        ensures
            r@ == self.spec_children(),
    {
        self.children.as_slice()
    }

    /// Returns the total time the span was open, in nanoseconds.
    pub fn total_duration(&self) -> (r: u64)
        ensures
            r == self.spec_total_duration(),
    {
        self.total_duration
    }

    /// Returns the aggregate time nested spans were open, in nanoseconds.
    pub fn inner_duration(&self) -> (r: u64)
        ensures
            r == self.spec_inner_duration(),
    {
        self.inner_duration
    }

    /// Returns the time the span was open but no nested span was, in
    /// nanoseconds. The span must satisfy its accounting invariant: on a
    /// span whose counters violate it the subtraction would underflow, and
    /// such a value signals a bug in the producer.
    pub fn base_duration(&self) -> (r: u64)
        requires
            self.well_formed(),
        ensures
            r == self.spec_base_duration(),
            self.spec_total_duration() == self.spec_inner_duration() + r,
    {
        self.total_duration - self.inner_duration
    }
}

impl Tree {
    /// Returns a reference to the inner event if the tree wraps an event;
    /// fails with [`ExpectedEventError`] if it wraps a span. A pure
    /// projection: the tree is neither consumed nor altered.
    pub fn event(&self) -> (r: Result<&Event, ExpectedEventError>)
        ensures
            (*self matches Tree::Event(e) ==> r matches Ok(re) && *re == e),
            (*self matches Tree::Span(_) ==> r == Err::<&Event, ExpectedEventError>(
                ExpectedEventError,
            )),
    {
        match self {
            Tree::Event(event) => Ok(event),
            Tree::Span(_) => Err(ExpectedEventError),
        }
    }

    /// Returns a reference to the inner span if the tree wraps a span;
    /// fails with [`ExpectedSpanError`] if it wraps an event. The mirror of
    /// [`Tree::event`], and likewise a pure projection.
    pub fn span(&self) -> (r: Result<&Span, ExpectedSpanError>)
        ensures
            (*self matches Tree::Span(s) ==> r matches Ok(rs) && *rs == s),
            (*self matches Tree::Event(_) ==> r == Err::<&Span, ExpectedSpanError>(
                ExpectedSpanError,
            )),
    {
        match self {
            Tree::Event(_) => Err(ExpectedSpanError),
            Tree::Span(span) => Ok(span),
        }
    }
}

/// Law: a well-formed span with no children and zero total duration reports
/// zero inner duration and zero base duration.
pub proof fn lemma_empty_span_has_zero_durations(s: Span)
    requires
        s.well_formed(),
        s.spec_children().len() == 0,
        s.spec_total_duration() == 0,
    ensures
        s.spec_inner_duration() == 0,
        s.spec_base_duration() == 0,
{
}

/// Law: for every span, the total duration decomposes exactly into the
/// inner duration plus the base duration, by construction of the derived
/// base duration.
pub proof fn lemma_total_is_inner_plus_base(s: Span)
    ensures
        s.spec_total_duration() == s.spec_inner_duration() + s.spec_base_duration(),
{
}

/// Law: every well-formed span — in particular one holding at least one
/// child — accounts a non-negative inner duration that never exceeds its
/// total duration.
pub proof fn lemma_inner_duration_within_total(s: Span)
    requires
        s.well_formed(),
        s.spec_children().len() >= 1,
    ensures
        s.spec_inner_duration() >= 0,
        s.spec_inner_duration() <= s.spec_total_duration(),
        s.spec_base_duration() >= 0,
{
}

} // verus!
