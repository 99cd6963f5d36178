//! Core of a document-model evaluator: a guarded show-rule rewriting engine
//! and a best-effort speculative value resolver for tooling.
//!
//! The rewrite engine matches user-authored recipes against content nodes by
//! node-kind identity, invokes the bound function with the arity it declares,
//! and marks produced content with a guard so that the same recipe instance
//! never re-fires on its own unmodified output. The speculative resolver
//! determines the possible runtime values of a syntax node by literal
//! extraction, structural field projection, or an instrumented evaluation of
//! the whole source file.

pub mod analyze;
pub mod ident;
pub mod path;
pub mod recipe;
pub mod syntax;
pub mod util;
pub mod value;
