//! The whole pipeline: from source text to assembly text.

use vstd::prelude::*;
use crate::generator::GenError;
use crate::grammar::{program, runtime_scope, ParseState};
use crate::lexer::{tokens_of, LexError, LexErrorView, Lexer};
use crate::parser::{error_of, ParseError, Parser};
use crate::x86_generator::{x86_assembly, X86CodeGenerator};

verus! {

/// Why a program was not compiled: the stage that stopped, with its error.
/// Compilation stops at the first error, and nothing is emitted.
#[derive(Debug, PartialEq, Eq)]
pub enum CompileError {
    Lex(LexError),
    Parse(ParseError),
    Generate(GenError),
}

/// The mathematical value of a `CompileError`.
pub enum CompileErrorView {
    Lex(LexErrorView),
    Parse(ParseError),
    Generate(GenError),
}

impl View for CompileError {
    type V = CompileErrorView;

    open spec fn view(&self) -> CompileErrorView {
        match self {
            CompileError::Lex(error) => CompileErrorView::Lex(error@),
            CompileError::Parse(error) => CompileErrorView::Parse(*error),
            CompileError::Generate(error) => CompileErrorView::Generate(*error),
        }
    }
}

/// The assembly text of a source text: its tokens are parsed, in the scope
/// of the runtime's functions, into a tree, and the code of the tree is
/// generated. Each stage works on what the stage before it gives, so an
/// error of the lexer or of the parser comes before any code is generated.
pub open spec fn assembly_of(source: Seq<char>) -> Result<Seq<char>, CompileErrorView> {
    match tokens_of(source) {
        Err(error) => Err(CompileErrorView::Lex(error)),
        Ok(tokens) => match program(
            tokens,
            ParseState { index: 0, scopes: seq![runtime_scope()] },
        ) {
            Err(failure) => Err(CompileErrorView::Parse(error_of(tokens, failure))),
            Ok((tree, _)) => match x86_assembly(tree) {
                Err(error) => Err(CompileErrorView::Generate(error)),
                Ok(text) => Ok(text),
            },
        },
    }
}

/// Compiles a source text to x86-64 assembly text.
pub fn compile(source: &str) -> (result: Result<String, CompileError>)
    ensures
        match assembly_of(source@) {
            Ok(text) => result is Ok && result->Ok_0@ == text,
            Err(error) => result is Err && result->Err_0@ == error,
        },
{
    let tokens = match Lexer::new(source).tokenize() {
        Ok(tokens) => tokens,
        Err(error) => {
            return Err(CompileError::Lex(error));
        },
    };
    let tree = match Parser::new(tokens).parse() {
        Ok(tree) => tree,
        Err(error) => {
            return Err(CompileError::Parse(error));
        },
    };
    match X86CodeGenerator::generate(&tree) {
        Ok(text) => Ok(text),
        Err(error) => Err(CompileError::Generate(error)),
    }
}

} // verus!
