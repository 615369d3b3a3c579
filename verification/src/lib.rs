//! Baseline code generation for a small statically typed object-oriented
//! language: a typed, decorated syntax tree goes in, a listing of machine
//! instructions with its safepoint, exception-handler and line tables comes
//! out, and with it the bytes of the code for the 64-bit x86 processor.

pub mod ast;
pub mod class;
pub mod codegen;
pub mod cpu;
pub mod ctxt;
pub mod dseg;
pub mod dump;
pub mod emit;
pub mod encode;
pub mod error;
pub mod expr;
pub mod fct;
pub mod flow;
pub mod image;
pub mod implck;
pub mod interner;
pub mod laws;
pub mod ir;
pub mod lexer;
pub mod lowering;
pub mod machine;
pub mod masm;
pub mod mem;
pub mod msg;
pub mod native;
pub mod object;
pub mod prelude;
pub mod runtime;
pub mod stub;
pub mod trap;
pub mod ty;
pub mod vtable;
