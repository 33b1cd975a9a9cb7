//! Identifiers and conversion into them.

use vstd::prelude::*;
use crate::interned::{InternedString, ToInternedString};

verus! {

/// An identifier: an interned name.
#[derive(Clone, Debug, PartialEq, Eq)]
pub struct Ident {
    pub name: InternedString,
}

impl View for Ident {
    type V = Seq<char>;

    open spec fn view(&self) -> Seq<char> {
        self.name@
    }
}

/// Conversion into an identifier.  Total: every implementor yields an
/// identifier whose characters are `spec_chars`.
pub trait ToIdent: Sized {
    /// The characters of the identifier this value converts into.
    spec fn spec_chars(self) -> Seq<char>;

    /// Converts into an identifier.
    fn to_ident(self) -> (r: Ident)
        ensures
            r@ == self.spec_chars(),
    ;
}

impl ToIdent for Ident {
    open spec fn spec_chars(self) -> Seq<char> {
        self@
    }

    /// Already an identifier: handed back unchanged.
    fn to_ident(self) -> (r: Ident)
        ensures
            r == self,
    {
        self
    }
}

impl ToIdent for InternedString {
    open spec fn spec_chars(self) -> Seq<char> {
        self@
    }

    fn to_ident(self) -> (r: Ident)
        ensures
            r == (Ident { name: self }),
    {
        Ident { name: self }
    }
}

impl ToIdent for String {
    open spec fn spec_chars(self) -> Seq<char> {
        self@
    }

    fn to_ident(self) -> (r: Ident) {
        Ident { name: self.into_interned_string() }
    }
}

impl ToIdent for &str {
    open spec fn spec_chars(self) -> Seq<char> {
        self@
    }

    fn to_ident(self) -> (r: Ident) {
        Ident { name: self.into_interned_string() }
    }
}

} // verus!
