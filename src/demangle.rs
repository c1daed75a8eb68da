//! The two demanglers a symbol name is offered to, each behind a trusted
//! wrapper whose result is named by a spec function.

use vstd::prelude::*;

verus! {

/// The Rust demangler's rendering of a name, or `None` where it does not
/// recognise the name as Rust-mangled.
pub uninterp spec fn rust_demangling(s: Seq<char>) -> Option<Seq<char>>;

/// The C++ demangler's rendering of a name, or `None` where it does not
/// recognise the name as C++-mangled.
pub uninterp spec fn cpp_demangling(s: Seq<char>) -> Option<Seq<char>>;

/// The text held by an optional string.
pub open spec fn text_of(o: Option<String>) -> Option<Seq<char>> {
    match o {
        Some(s) => Some(s@),
        None => None,
    }
}

/// Relies on `rustc_demangle::try_demangle`, which succeeds exactly on names it
/// recognises as Rust-mangled (never on an empty one), and on that result's
/// `Display`, which renders the demangled name.
#[verifier::external_body]
pub(crate) fn try_demangle_rust(s: &str) -> (r: Option<String>)
    ensures
        text_of(r) == rust_demangling(s@),
        s@.len() == 0 ==> r is None,
{
    rustc_demangle::try_demangle(s).ok().map(|d| format!("{}", d))
}

/// Relies on `cpp_demangle::Symbol::new`, which parses the bytes of a name as a
/// C++ mangled name (and fails on empty input), and on `Symbol::demangle`,
/// which renders the parsed name with the default options.
#[verifier::external_body]
pub(crate) fn try_demangle_cpp(s: &str) -> (r: Option<String>)
    ensures
        text_of(r) == cpp_demangling(s@),
        s@.len() == 0 ==> r is None,
{
    match cpp_demangle::Symbol::new(s.as_bytes()) {
        Ok(sym) => sym.demangle().ok(),
        Err(_) => None,
    }
}

} // verus!
