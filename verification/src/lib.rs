//! A single-pass syntax-tree transformer that rewrites interface (trait-like)
//! declarations and implementation blocks so that asynchronous methods are
//! expressed without native asynchronous method syntax: each asynchronous
//! method becomes a synchronous-looking method whose return type names a
//! per-method generated type bound to a single-shot future producing the
//! original return value.
//!
//! Parsing source text into the structured [`ast::Item`] and rendering the
//! result back into token form are the hosting toolchain's business; this
//! crate holds only the transform itself.

pub mod ast;
pub mod expand;
pub mod laws;
pub mod name;
pub mod rewrite;
