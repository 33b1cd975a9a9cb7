//! The canonical interned-string representation used by string payloads.

use vstd::prelude::*;

verus! {

/// An interned string.  Two interned strings are the same string exactly
/// when their views (`@`, the sequence of characters) are equal.
#[derive(Clone, Debug, PartialEq, Eq)]
pub struct InternedString {
    pub value: String,
}

impl View for InternedString {
    type V = Seq<char>;

    open spec fn view(&self) -> Seq<char> {
        self.value@
    }
}

/// Conversion into the canonical interned form.  Conversion is total: every
/// implementor turns itself into an interned string whose characters are
/// `spec_chars`, and a value that is already interned is handed back
/// unchanged rather than interned again.
pub trait ToInternedString: Sized {
    /// The characters the interned form will hold.
    spec fn spec_chars(self) -> Seq<char>;

    /// Converts into the canonical interned form.
    fn into_interned_string(self) -> (r: InternedString)
        ensures
            r@ == self.spec_chars(),
    ;
}

impl ToInternedString for InternedString {
    open spec fn spec_chars(self) -> Seq<char> {
        self@
    }

    /// Already interned: returned as it is, not interned a second time.
    fn into_interned_string(self) -> (r: InternedString)
        ensures
            r == self,
    {
        self
    }
}

impl ToInternedString for String {
    open spec fn spec_chars(self) -> Seq<char> {
        self@
    }

    fn into_interned_string(self) -> (r: InternedString) {
        InternedString { value: self }
    }
}

impl ToInternedString for &str {
    open spec fn spec_chars(self) -> Seq<char> {
        self@
    }

    fn into_interned_string(self) -> (r: InternedString) {
        InternedString { value: self.to_owned() }
    }
}

/// Interning is idempotent: converting a value that is already interned
/// keeps its characters, so interning a value twice yields interned strings
/// that are equal as interned strings (their views agree).
pub proof fn lemma_intern_idempotent(s: InternedString)
    ensures
        s.spec_chars() == s@,
{
}

} // verus!
