//! A symbol name that is either borrowed from the buffer it was read from or
//! owned.

use vstd::prelude::*;

verus! {

/// The text of a symbol name, borrowed from an input buffer or held in storage
/// of its own.
pub enum SymbolName<'data> {
    Borrowed(&'data str),
    Owned(String),
}

impl<'data> View for SymbolName<'data> {
    type V = Seq<char>;

    open spec fn view(&self) -> Seq<char> {
        match self {
            SymbolName::Borrowed(s) => s@,
            SymbolName::Owned(s) => s@,
        }
    }
}

impl<'data> SymbolName<'data> {
    /// The name as a string slice.
    pub fn as_str(&self) -> (r: &str)
        ensures
            r@ == self@,
    {
        match self {
            SymbolName::Borrowed(s) => *s,
            SymbolName::Owned(s) => s.as_str(),
        }
    }

    /// Whether the name is held in storage of its own.
    pub fn is_owned(&self) -> (r: bool)
        ensures
            r == self is Owned,
    {
        match self {
            SymbolName::Borrowed(_) => false,
            SymbolName::Owned(_) => true,
        }
    }

    /// Converts the name into one that holds its own copy of the text.
    pub fn into_owned(self) -> (r: SymbolName<'static>)
        ensures
            r@ == self@,
            r is Owned,
    {
        match self {
            SymbolName::Borrowed(s) => SymbolName::Owned(s.to_owned()),
            SymbolName::Owned(s) => SymbolName::Owned(s),
        }
    }

    /// Copies the text into a `String`.
    pub fn to_string(&self) -> (r: String)
        ensures
            r@ == self@,
    {
        self.as_str().to_owned()
    }
}

impl<'data> PartialEq for SymbolName<'data> {
    fn eq(&self, other: &SymbolName<'data>) -> (r: bool) {
        self.to_string() == other.to_string()
    }
}

impl<'data> vstd::std_specs::cmp::PartialEqSpecImpl for SymbolName<'data> {
    open spec fn obeys_eq_spec() -> bool {
        true
    }

    open spec fn eq_spec(&self, other: &SymbolName<'data>) -> bool {
        self@ == other@
    }
}

impl<'data> Eq for SymbolName<'data> {
}

impl<'data> From<&'data str> for SymbolName<'data> {
    fn from(s: &'data str) -> (r: SymbolName<'data>) {
        SymbolName::Borrowed(s)
    }
}

impl<'data> vstd::std_specs::convert::FromSpecImpl<&'data str> for SymbolName<'data> {
    open spec fn obeys_from_spec() -> bool {
        true
    }

    open spec fn from_spec(s: &'data str) -> SymbolName<'data> {
        SymbolName::Borrowed(s)
    }
}

impl<'data> From<String> for SymbolName<'data> {
    fn from(s: String) -> (r: SymbolName<'data>) {
        SymbolName::Owned(s)
    }
}

impl<'data> vstd::std_specs::convert::FromSpecImpl<String> for SymbolName<'data> {
    open spec fn obeys_from_spec() -> bool {
        true
    }

    open spec fn from_spec(s: String) -> SymbolName<'data> {
        SymbolName::Owned(s)
    }
}

} // verus!
