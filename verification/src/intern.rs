//! Handles to interned strings. The interning table itself is an outside
//! collaborator; a handle carries the interned text, and equality between
//! handles is equality of that content. This core never inserts into or
//! evicts from the table.

use vstd::prelude::*;
use vstd::string::StringExecFns;

verus! {

/// A handle to one interned string; viewed as the interned text.
#[derive(Debug)]
pub struct InternedString {
    text: String,
}

impl View for InternedString {
    type V = Seq<char>;

    closed spec fn view(&self) -> Seq<char> {
        self.text@
    }
}

impl InternedString {
    /// Wraps an interned text in a handle.
    pub fn new(text: String) -> (s: InternedString)
        ensures
            s@ == text@,
    {
        InternedString { text }
    }

    /// An owned copy of the interned text.
    pub fn to_owned(&self) -> (s: String)
        ensures
            s@ == self@,
    {
        self.text.clone()
    }

    /// The interned text, borrowed.
    pub fn as_str(&self) -> (s: &str)
        ensures
            s@ == self@,
    {
        self.text.as_str()
    }
}

impl Clone for InternedString {
    /// Cloning a handle keeps the interned text it stands for.
    fn clone(&self) -> (s: Self)
        ensures
            s@ == self@,
    {
        InternedString { text: self.text.clone() }
    }
}

impl PartialEq for InternedString {
    /// Handles are equal exactly when their interned content is.
    fn eq(&self, other: &Self) -> (r: bool)
    {
        self.text == other.text
    }
}

impl vstd::std_specs::cmp::PartialEqSpecImpl for InternedString {
    open spec fn obeys_eq_spec() -> bool {
        true
    }

    open spec fn eq_spec(&self, other: &Self) -> bool {
        self@ == other@
    }
}

} // verus!
