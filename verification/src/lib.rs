//! Renders programs of a small assembly-like language as assembler listings.
//!
//! A [`Program`] is a data section of exported global variables and a code
//! section of exported instruction sequences. `to_uasm` gives the text that
//! the assembler reads; [`grammar`] says, character for character, what that
//! text is.

pub mod emit;
pub mod grammar;
pub mod hex;
pub mod laws;
pub mod syntax;

pub use emit::string_of_exports;
pub use syntax::{Addr, Code, Data, Expr, Inst, Literal, Program, TypeName, VarDecl, VarName};
