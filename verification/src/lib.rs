//! A source-to-source compiler core for the Saturnus scripting language.
//!
//! The crate lowers a parsed program to Lua-like target text.  It is made
//! of a text [`builder`], a code generation engine walking the [`ast`],
//! and a macro expansion engine that compiles macro definitions to target
//! code and runs macro invocations in a sandboxed interpreter.

pub mod ast;
pub mod ast_builder;
pub mod builder;
pub mod helpers;
pub mod render;
pub mod laws;
pub mod macros;
pub mod pipeline;
pub mod serialize;
pub mod visitor;
