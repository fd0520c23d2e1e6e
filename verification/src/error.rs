use vstd::prelude::*;

verus! {

/// Error returned by [`Tree::event`](crate::Tree::event) when the tree
/// wraps a span instead of an event: the caller expected a leaf node but
/// found an internal node.
#[derive(Clone, Copy, Debug, PartialEq, Eq, Structural)]
pub struct ExpectedEventError;

/// Error returned by [`Tree::span`](crate::Tree::span) when the tree wraps
/// an event instead of a span: the caller expected an internal node but
/// found a leaf node.
#[derive(Clone, Copy, Debug, PartialEq, Eq, Structural)]
pub struct ExpectedSpanError;

} // verus!
