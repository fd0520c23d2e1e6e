use vstd::prelude::*;

verus! {

/// One key-value pair recorded with an event. An event's fields form an
/// ordered sequence of such pairs, in capture order.
#[derive(Clone, Debug, PartialEq, Eq)]
pub struct Field {
    key: String,
    value: String,
}

impl View for Field {
    type V = (Seq<char>, Seq<char>);

    closed spec fn view(&self) -> (Seq<char>, Seq<char>) {
        (self.key@, self.value@)
    }
}

impl Field {
    /// Makes a field from its key and its value.
    pub fn new(key: String, value: String) -> (f: Field)
        ensures
            f@ == (key@, value@),
    {
        Field { key, value }
    }

    /// Returns the field's key.
    pub fn key(&self) -> (r: &str)
        ensures
            r@ == self@.0,
    {
        self.key.as_str()
    }

    /// Returns the field's value.
    pub fn value(&self) -> (r: &str)
        ensures
            r@ == self@.1,
    {
        self.value.as_str()
    }
}

} // verus!
