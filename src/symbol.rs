//! The symbol record and the pipeline that normalises its name when it is
//! made.

use vstd::prelude::*;

use crate::demangle::{cpp_demangling, rust_demangling, text_of, try_demangle_cpp, try_demangle_rust};
use crate::kinds::{SymbolLang, SymbolSource, SymbolType};
use crate::name::SymbolName;

verus! {

/// What a symbol holds, as plain values.
pub struct SymbolView {
    pub name: Seq<char>,
    pub addr: u64,
    pub bpos: usize,
    pub blen: usize,
    pub lang: SymbolLang,
    pub source: SymbolSource,
    pub type_: SymbolType,
}

/// The name a symbol keeps, given its raw name and what the Rust and the C++
/// demanglers made of it: the Rust rendering first, then the C++ one, else the
/// raw name.
pub open spec fn resolved_name(
    raw: Seq<char>,
    rust: Option<Seq<char>>,
    cpp: Option<Seq<char>>,
) -> Seq<char> {
    match rust {
        Some(n) => n,
        None => match cpp {
            Some(n) => n,
            None => raw,
        },
    }
}

/// The language a symbol keeps, given the caller's language and what the Rust
/// and the C++ demanglers made of its name.
pub open spec fn resolved_lang(
    lang: SymbolLang,
    rust: Option<Seq<char>>,
    cpp: Option<Seq<char>>,
) -> SymbolLang {
    match rust {
        Some(_) => lang.updated(SymbolLang::Rust),
        None => match cpp {
            Some(_) => lang.updated(SymbolLang::Cpp),
            None => lang,
        },
    }
}

/// When the Rust demangler recognises the name, the symbol keeps the Rust
/// rendering, and a symbol given no language becomes Rust.
pub proof fn lemma_rust_rendering_first(
    raw: Seq<char>,
    rust: Option<Seq<char>>,
    cpp: Option<Seq<char>>,
    lang: SymbolLang,
)
    requires
        rust is Some,
    ensures
        resolved_name(raw, rust, cpp) == rust->0,
        lang is Unknown ==> resolved_lang(lang, rust, cpp) == SymbolLang::Rust,
{
}

/// When only the C++ demangler recognises the name, the symbol keeps the C++
/// rendering, and a symbol given no language becomes C++.
pub proof fn lemma_cpp_rendering_second(
    raw: Seq<char>,
    rust: Option<Seq<char>>,
    cpp: Option<Seq<char>>,
    lang: SymbolLang,
)
    requires
        rust is None,
        cpp is Some,
    ensures
        resolved_name(raw, rust, cpp) == cpp->0,
        lang is Unknown ==> resolved_lang(lang, rust, cpp) == SymbolLang::Cpp,
{
}

/// When neither demangler recognises the name, the symbol keeps the raw name
/// and the caller's language.
pub proof fn lemma_unrecognised_name_kept(
    raw: Seq<char>,
    rust: Option<Seq<char>>,
    cpp: Option<Seq<char>>,
    lang: SymbolLang,
)
    requires
        rust is None,
        cpp is None,
    ensures
        resolved_name(raw, rust, cpp) == raw,
        resolved_lang(lang, rust, cpp) == lang,
{
}

/// A language given by the caller is kept, whichever demangler recognises the
/// name.
pub proof fn lemma_caller_lang_kept(
    rust: Option<Seq<char>>,
    cpp: Option<Seq<char>>,
    lang: SymbolLang,
)
    requires
        !(lang is Unknown),
    ensures
        resolved_lang(lang, rust, cpp) == lang,
{
}

/// A named entity (function or static data) of a binary.
pub struct Symbol<'data> {
    /// The demangled name of the symbol.
    name: SymbolName<'data>,
    /// The virtual address of the symbol.
    addr: u64,
    /// The starting byte position of the symbol in its binary.
    bpos: usize,
    /// The length of the symbol in its binary.
    blen: usize,
    /// Possible source language of the symbol.
    lang: SymbolLang,
    /// Where this symbol is from.
    source: SymbolSource,
    /// The type of this symbol.
    type_: SymbolType,
}

impl<'data> View for Symbol<'data> {
    type V = SymbolView;

    closed spec fn view(&self) -> SymbolView {
        SymbolView {
            name: self.name@,
            addr: self.addr,
            bpos: self.bpos,
            blen: self.blen,
            lang: self.lang,
            source: self.source,
            type_: self.type_,
        }
    }
}

impl<'data> Symbol<'data> {
    /// The end of the symbol's bytes never passes the largest position.
    #[verifier::type_invariant]
    spec fn end_fits(&self) -> bool {
        self.bpos + self.blen <= usize::MAX
    }

    /// Whether the symbol's name is held in storage of its own.
    pub closed spec fn owns_name(&self) -> bool {
        self.name is Owned
    }

    /// Makes a symbol, offering its name to the Rust demangler and then to the
    /// C++ one; the first that recognises the name gives the stored name, and
    /// its language where the caller gave none.
    pub fn new(
        name: SymbolName<'data>,
        addr: u64,
        bpos: usize,
        blen: usize,
        type_: SymbolType,
        source: SymbolSource,
        lang: SymbolLang,
    ) -> (s: Symbol<'data>)
        requires
            bpos + blen <= usize::MAX,
        ensures
            s@.name == resolved_name(name@, rust_demangling(name@), cpp_demangling(name@)),
            s@.lang == resolved_lang(lang, rust_demangling(name@), cpp_demangling(name@)),
            s@.addr == addr,
            s@.bpos == bpos,
            s@.blen == blen,
            s@.type_ == type_,
            s@.source == source,
    {
        // Names decorated by C calling conventions (stdcall, fastcall) are kept
        // as they are.
        let rust = try_demangle_rust(name.as_str());
        let cpp = if rust.is_some() {
            None
        } else {
            try_demangle_cpp(name.as_str())
        };
        Symbol::from_demangled(name, rust, cpp, addr, bpos, blen, type_, source, lang)
    }

    /// Makes a symbol from its raw name and what the Rust and the C++
    /// demanglers returned for it (`None` where one did not recognise it).
    pub fn from_demangled(
        name: SymbolName<'data>,
        rust: Option<String>,
        cpp: Option<String>,
        addr: u64,
        bpos: usize,
        blen: usize,
        type_: SymbolType,
        source: SymbolSource,
        lang: SymbolLang,
    ) -> (s: Symbol<'data>)
        requires
            bpos + blen <= usize::MAX,
        ensures
            s@.name == resolved_name(name@, text_of(rust), text_of(cpp)),
            s@.lang == resolved_lang(lang, text_of(rust), text_of(cpp)),
            s@.addr == addr,
            s@.bpos == bpos,
            s@.blen == blen,
            s@.type_ == type_,
            s@.source == source,
    {
        let mut lang = lang;
        let name = match rust {
            Some(n) => {
                lang.update(SymbolLang::Rust);
                SymbolName::Owned(n)
            },
            None => match cpp {
                Some(n) => {
                    lang.update(SymbolLang::Cpp);
                    SymbolName::Owned(n)
                },
                None => name,
            },
        };
        Symbol { name, addr, bpos, blen, type_, source, lang }
    }

    pub fn address(&self) -> (r: u64)
        ensures
            r == self@.addr,
    {
        self.addr
    }

    pub fn offset(&self) -> (r: usize)
        ensures
            r == self@.bpos,
    {
        self.bpos
    }

    pub fn end(&self) -> (r: usize)
        ensures
            r == self@.bpos + self@.blen,
    {
        proof {
            use_type_invariant(self);
        }
        self.bpos + self.blen
    }

    pub fn size(&self) -> (r: usize)
        ensures
            r == self@.blen,
    {
        self.blen
    }

    pub fn name(&self) -> (r: &str)
        ensures
            r@ == self@.name,
    {
        self.name.as_str()
    }

    pub fn lang(&self) -> (r: SymbolLang)
        ensures
            r == self@.lang,
    {
        self.lang
    }

    pub fn source(&self) -> (r: SymbolSource)
        ensures
            r == self@.source,
    {
        self.source
    }

    pub fn type_(&self) -> (r: SymbolType)
        ensures
            r == self@.type_,
    {
        self.type_
    }

    /// Converts this into a static owned symbol.
    pub fn owned(self) -> (r: Symbol<'static>)
        ensures
            r@ == self@,
            r.owns_name(),
    {
        proof {
            use_type_invariant(&self);
        }
        Symbol {
            name: self.name.into_owned(),
            addr: self.addr,
            bpos: self.bpos,
            blen: self.blen,
            lang: self.lang,
            source: self.source,
            type_: self.type_,
        }
    }
}

impl<'data> PartialEq for Symbol<'data> {
    fn eq(&self, other: &Symbol<'data>) -> (r: bool) {
        self.name == other.name && self.addr == other.addr && self.bpos == other.bpos
            && self.blen == other.blen && self.lang == other.lang && self.source == other.source
            && self.type_ == other.type_
    }
}

impl<'data> vstd::std_specs::cmp::PartialEqSpecImpl for Symbol<'data> {
    open spec fn obeys_eq_spec() -> bool {
        true
    }

    open spec fn eq_spec(&self, other: &Symbol<'data>) -> bool {
        self@ == other@
    }
}

impl<'data> Eq for Symbol<'data> {
}

} // verus!
