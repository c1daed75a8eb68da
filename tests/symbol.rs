use disasm::{Symbol, SymbolLang, SymbolName, SymbolSource, SymbolType};

fn sym(name: &str, lang: SymbolLang) -> Symbol<'_> {
    Symbol::new(name.into(), 0, 0, 0, SymbolType::Function, SymbolSource::Object, lang)
}

#[test]
fn cpp_name_demangled_when_language_unknown() {
    let s = sym("_ZN3foo3barEv", SymbolLang::Unknown);
    assert_eq!(s.name(), "foo::bar()");
    assert!(s.lang() == SymbolLang::Cpp);
}

#[test]
fn rust_name_demangled_when_language_unknown() {
    let s = sym("_RNvC1a3foo", SymbolLang::Unknown);
    assert_eq!(s.name(), "a::foo");
    assert!(s.lang() == SymbolLang::Rust);
}

#[test]
fn legacy_rust_name_demangled() {
    let s = sym("_ZN3foo3bar17h05af221e174051e9E", SymbolLang::Unknown);
    assert_eq!(s.name(), "foo::bar::h05af221e174051e9");
    assert!(s.lang() == SymbolLang::Rust);
}

#[test]
fn plain_c_name_kept() {
    let s = sym("plain_symbol", SymbolLang::C);
    assert_eq!(s.name(), "plain_symbol");
    assert!(s.lang() == SymbolLang::C);
}

#[test]
fn caller_language_wins_over_cpp() {
    let s = sym("_ZN3foo3barEv", SymbolLang::C);
    assert_eq!(s.name(), "foo::bar()");
    assert!(s.lang() == SymbolLang::C);
}

#[test]
fn caller_language_wins_over_rust() {
    let s = sym("_RNvC1a3foo", SymbolLang::Cpp);
    assert_eq!(s.name(), "a::foo");
    assert!(s.lang() == SymbolLang::Cpp);
}

#[test]
fn junk_name_kept_and_language_unknown() {
    let s = sym("junk$$$", SymbolLang::Unknown);
    assert_eq!(s.name(), "junk$$$");
    assert!(s.lang() == SymbolLang::Unknown);
}

#[test]
fn empty_name_kept() {
    let s = sym("", SymbolLang::Unknown);
    assert_eq!(s.name(), "");
    assert!(s.lang() == SymbolLang::Unknown);
}

#[test]
fn owned_input_name_accepted() {
    let s = Symbol::new(
        String::from("_ZN3foo3barEv").into(),
        0,
        0,
        0,
        SymbolType::Function,
        SymbolSource::Object,
        SymbolLang::Unknown,
    );
    assert_eq!(s.name(), "foo::bar()");
}

#[test]
fn accessors_report_construction_inputs() {
    let s = Symbol::new("x".into(), 0x1000, 16, 4, SymbolType::Static, SymbolSource::PDB, SymbolLang::C);
    assert_eq!(s.end(), 20);
    assert_eq!(s.size(), 4);
    assert_eq!(s.offset(), 16);
    assert_eq!(s.address(), 0x1000);
    assert!(s.type_() == SymbolType::Static);
    assert!(s.source() == SymbolSource::PDB);
    assert_eq!(s.end(), s.offset() + s.size());
}

#[test]
fn end_at_largest_position() {
    let s = Symbol::new("x".into(), 0, usize::MAX - 4, 4, SymbolType::Function, SymbolSource::Dwarf, SymbolLang::C);
    assert_eq!(s.end(), usize::MAX);
}

#[test]
fn owned_symbol_equals_borrowed_one() {
    let buf = String::from("junk$$$");
    let s = Symbol::new(buf.as_str().into(), 7, 8, 9, SymbolType::Function, SymbolSource::Dwarf, SymbolLang::C);
    let copy = Symbol::new(buf.as_str().into(), 7, 8, 9, SymbolType::Function, SymbolSource::Dwarf, SymbolLang::C);
    let o: Symbol<'static> = s.owned();
    assert!(o == copy);
    drop(copy);
    drop(buf);
    assert_eq!(o.name(), "junk$$$");
    assert_eq!(o.address(), 7);
    assert_eq!(o.offset(), 8);
    assert_eq!(o.size(), 9);
    assert!(o.lang() == SymbolLang::C);
    assert!(o.source() == SymbolSource::Dwarf);
    assert!(o.type_() == SymbolType::Function);
}

#[test]
fn owned_symbol_compares_equal() {
    let s = sym("_ZN3foo3barEv", SymbolLang::Unknown);
    let t = sym("_ZN3foo3barEv", SymbolLang::Unknown);
    assert!(s.owned() == t);
}

#[test]
fn symbols_with_different_fields_differ() {
    let s = sym("a", SymbolLang::C);
    let t = sym("b", SymbolLang::C);
    let u = sym("a", SymbolLang::Rust);
    assert!(s != t);
    assert!(s != u);
}

#[test]
fn from_demangled_prefers_rust_rendering() {
    let s = Symbol::from_demangled(
        "raw".into(),
        Some(String::from("r")),
        Some(String::from("c")),
        0,
        0,
        0,
        SymbolType::Function,
        SymbolSource::Object,
        SymbolLang::Unknown,
    );
    assert_eq!(s.name(), "r");
    assert!(s.lang() == SymbolLang::Rust);
}

#[test]
fn from_demangled_falls_back_to_cpp_rendering() {
    let s = Symbol::from_demangled(
        "raw".into(),
        None,
        Some(String::from("c")),
        0,
        0,
        0,
        SymbolType::Function,
        SymbolSource::Object,
        SymbolLang::Unknown,
    );
    assert_eq!(s.name(), "c");
    assert!(s.lang() == SymbolLang::Cpp);
}

#[test]
fn from_demangled_keeps_raw_name() {
    let s = Symbol::from_demangled(
        "raw".into(),
        None,
        None,
        0,
        0,
        0,
        SymbolType::Function,
        SymbolSource::Object,
        SymbolLang::Unknown,
    );
    assert_eq!(s.name(), "raw");
    assert!(s.lang() == SymbolLang::Unknown);
}

#[test]
fn from_demangled_keeps_caller_language() {
    let s = Symbol::from_demangled(
        "raw".into(),
        Some(String::from("r")),
        None,
        0,
        0,
        0,
        SymbolType::Function,
        SymbolSource::Object,
        SymbolLang::C,
    );
    assert_eq!(s.name(), "r");
    assert!(s.lang() == SymbolLang::C);
}

#[test]
fn update_fills_unknown_only() {
    let mut l = SymbolLang::Unknown;
    l.update(SymbolLang::Cpp);
    assert!(l == SymbolLang::Cpp);
    l.update(SymbolLang::Rust);
    assert!(l == SymbolLang::Cpp);
    let mut k = SymbolLang::C;
    k.update(SymbolLang::Unknown);
    assert!(k == SymbolLang::C);
}

#[test]
fn renderings() {
    assert_eq!(SymbolType::Function.to_string(), "function");
    assert_eq!(SymbolType::Static.to_string(), "static");
    assert_eq!(SymbolSource::Object.to_string(), "object");
    assert_eq!(SymbolSource::Dwarf.to_string(), "DWARF");
    assert_eq!(SymbolSource::PDB.to_string(), "PDB");
    assert_eq!(SymbolLang::Rust.to_string(), "Rust");
    assert_eq!(SymbolLang::Cpp.to_string(), "C++");
    assert_eq!(SymbolLang::C.to_string(), "C");
    assert_eq!(SymbolLang::Unknown.to_string(), "unknown");
}

#[test]
fn name_storage_kinds() {
    let b: SymbolName = "abc".into();
    assert!(!b.is_owned());
    assert_eq!(b.as_str(), "abc");
    let o = b.into_owned();
    assert!(o.is_owned());
    assert_eq!(o.as_str(), "abc");
    let s: SymbolName = String::from("abc").into();
    assert!(s.is_owned());
    assert!(s == "abc".into());
    assert_eq!(s.to_string(), "abc");
}
