//! The closed enumerations that classify a symbol.

use vstd::prelude::*;

verus! {

/// What a symbol names.
#[derive(Copy, Clone, Debug, PartialEq, Eq, Structural)]
pub enum SymbolType {
    Function,
    /// Static variable.
    Static,
}

impl SymbolType {
    /// The text that names this kind of symbol.
    pub open spec fn text(self) -> Seq<char> {
        match self {
            SymbolType::Function => "function"@,
            SymbolType::Static => "static"@,
        }
    }

    /// Renders the symbol type as `function` or `static`.
    pub fn to_string(&self) -> (r: String)
        ensures
            r@ == self.text(),
    {
        let t: &str = match self {
            SymbolType::Function => "function",
            SymbolType::Static => "static",
        };
        t.to_owned()
    }
}

/// The source language a symbol is believed to come from.
#[derive(Copy, Clone, Debug, PartialEq, Eq, Structural)]
pub enum SymbolLang {
    Rust,
    Cpp,
    C,
    Unknown,
}

impl SymbolLang {
    /// The language after learning of `new_lang`: a known language is kept,
    /// an unknown one is replaced.
    pub open spec fn updated(self, new_lang: SymbolLang) -> SymbolLang {
        if self is Unknown {
            new_lang
        } else {
            self
        }
    }

    /// Update the language if it is unknown.
    pub fn update(&mut self, new_lang: SymbolLang)
        ensures
            *final(self) == old(self).updated(new_lang),
    {
        if *self == SymbolLang::Unknown {
            *self = new_lang
        }
    }

    /// The text that names this language.
    pub open spec fn text(self) -> Seq<char> {
        match self {
            SymbolLang::Rust => "Rust"@,
            SymbolLang::Cpp => "C++"@,
            SymbolLang::C => "C"@,
            SymbolLang::Unknown => "unknown"@,
        }
    }

    /// Renders the language as `Rust`, `C++`, `C` or `unknown`.
    pub fn to_string(&self) -> (r: String)
        ensures
            r@ == self.text(),
    {
        let t: &str = match self {
            SymbolLang::Rust => "Rust",
            SymbolLang::Cpp => "C++",
            SymbolLang::C => "C",
            SymbolLang::Unknown => "unknown",
        };
        t.to_owned()
    }
}

/// Where a symbol record was found.
#[derive(Copy, Clone, Debug, PartialEq, Eq, Structural)]
pub enum SymbolSource {
    /// The symbol was stored as part of the object file's (elf, mach-o, archive, pe, ...)
    /// structure.
    Object,
    /// The symbol was stored in DWARF debug data.
    Dwarf,
    /// The symbol was found in a PDB.
    PDB,
}

impl SymbolSource {
    /// The text that names this source.
    pub open spec fn text(self) -> Seq<char> {
        match self {
            SymbolSource::Object => "object"@,
            SymbolSource::Dwarf => "DWARF"@,
            SymbolSource::PDB => "PDB"@,
        }
    }

    /// Renders the source as `object`, `DWARF` or `PDB`.
    pub fn to_string(&self) -> (r: String)
        ensures
            r@ == self.text(),
    {
        let t: &str = match self {
            SymbolSource::Object => "object",
            SymbolSource::Dwarf => "DWARF",
            SymbolSource::PDB => "PDB",
        };
        t.to_owned()
    }
}

/// A known language is never replaced; an unknown one becomes whatever is
/// learnt.
pub proof fn lemma_update_keeps_known(l: SymbolLang, incoming: SymbolLang)
    ensures
        !(l is Unknown) ==> l.updated(incoming) == l,
        l is Unknown ==> l.updated(incoming) == incoming,
{
}

} // verus!
