//! A compiler for a tiny expression language: 32-bit integer literals under
//! the unary operators `add1`, `sub1` and `negate`, written as S-expressions
//! and compiled into assembly text for a one-register machine.
//!
//! The stages, in order:
//!
//! - [`reader`]: text to a generic [`value::Value`], through the `sexp` crate;
//! - [`parser`]: generic value to [`expr::Expr`], or the reason why not;
//! - [`codegen`]: expression to instructions and their text, with
//!   [`decimal`] for the literals;
//! - [`program`]: the assembly file around the instruction lines.
//!
//! [`compiler`] runs them one after the other. Every stage is stated over a
//! mathematical model and proved against it. All stages recurse on the
//! nesting of their input, so the depth they can take is that of the call
//! stack.

pub mod codegen;
pub mod compiler;
pub mod decimal;
pub mod expr;
pub mod parser;
pub mod program;
pub mod reader;
pub mod value;
