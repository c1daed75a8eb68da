//! Symbols found while disassembling native binaries: their names (demangled
//! where a demangler recognises them), positions, kinds and languages.

pub mod arch;
pub mod demangle;
pub mod kinds;
pub mod name;
pub mod symbol;

pub use kinds::{SymbolLang, SymbolSource, SymbolType};
pub use name::SymbolName;
pub use symbol::Symbol;
