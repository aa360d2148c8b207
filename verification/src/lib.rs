//! A single-pass compiler for a small statically typed imperative language,
//! translating source text into x86-64 assembly text.
//!
//! The text is split into tokens by the [`lexer`]. The [`parser`] builds
//! the syntax tree of [`ast`] from them, resolving names in the scopes of
//! [`scope`] and checking the types of [`types`] as it goes; what it
//! computes is stated, construct by construct, in [`grammar`], and what
//! holds of everything it reads is proved in [`progress`], [`typing`],
//! [`scoping`] and [`calls`].
//! The walk of [`generator`] turns the tree into code through the emission
//! interface of a target, which [`x86_generator`] implements. [`compile`]
//! runs the stages one after the other.
//!
//! Every function states what it computes over the mathematical values of
//! its arguments, and is proved to compute it.

pub mod text;
pub mod types;
pub mod scope;
pub mod ast;
pub mod lexer;
pub mod precedence;
pub mod grammar;
pub mod parser;
pub mod progress;
pub mod typing;
pub mod scoping;
pub mod calls;
pub mod generator;
pub mod x86_generator;
pub mod compile;

pub use crate::compile::{compile, CompileError};
