//! How parsing treats the scopes. A statement declares names in the
//! innermost scope only, and a block leaves the scopes exactly as it found
//! them: what a block declares is gone when it ends, and what it shadowed
//! is back.

use vstd::prelude::*;
use crate::grammar::{
    advanced, block, declare, expect, expression, function, if_statement, lookup,
    parameter_list, program_statements, statement, statements, variable_type, while_statement,
    ParseState,
};
use crate::precedence::OperatorPrecedence;
use crate::lexer::{TokenType, TokenView};
use crate::scope::{ScopeView, SymbolType};
use crate::types::PrimitiveType;

verus! {

/// Whether `after` is `before` but for its innermost scope.
pub open spec fn same_outer_scopes(before: Seq<ScopeView>, after: Seq<ScopeView>) -> bool {
    after.len() == before.len() && after.drop_last() == before.drop_last()
}

/// A name is looked up in the innermost scope first, and in the scopes
/// around it only where the innermost scope does not declare it.
pub proof fn lemma_lookup_prefers_innermost(
    scopes: Seq<ScopeView>,
    innermost: ScopeView,
    name: Seq<char>,
)
    ensures
        lookup(scopes.push(innermost), name) == match innermost.get(name) {
            Some(symbol) => Some(symbol),
            None => lookup(scopes, name),
        },
{
    assert(scopes.push(innermost).drop_last() =~= scopes);
}

/// A declaration changes the innermost scope only.
pub proof fn lemma_declare_keeps_outer_scopes(
    scopes: Seq<ScopeView>,
    name: Seq<char>,
    primitive_type: PrimitiveType,
    parameter_types: Seq<PrimitiveType>,
    symbol_type: SymbolType,
    offset: Option<int>,
    at: int,
)
    requires
        scopes.len() > 0,
    ensures
        declare(scopes, name, primitive_type, parameter_types, symbol_type, offset, at) matches Ok(
            (after, _),
        ) ==> same_outer_scopes(scopes, after),
{
    match declare(scopes, name, primitive_type, parameter_types, symbol_type, offset, at) {
        Ok((after, _)) => {
            assert(after.drop_last() =~= scopes.drop_last());
        },
        Err(_) => {},
    }
}

/// The parameters of a function change the innermost scope only.
pub proof fn lemma_parameter_list_keeps_outer_scopes(
    tokens: Seq<TokenView>,
    state: ParseState,
    ordinal: int,
)
    requires
        state.scopes.len() > 0,
    ensures
        parameter_list(tokens, state, ordinal) matches Ok((_, after)) ==> same_outer_scopes(
            state.scopes,
            after.scopes,
        ),
    decreases tokens.len() - state.index,
{
    let index = state.index;
    if 0 <= index < tokens.len() && !(tokens[index].token_type is RightParen) {
        match variable_type(tokens, state.scopes, index + 2) {
            Ok((primitive_type, _)) => {
                lemma_declare_keeps_outer_scopes(
                    state.scopes,
                    tokens[index].value,
                    primitive_type,
                    Seq::empty(),
                    SymbolType::FunctionParameter,
                    Some(ordinal),
                    index,
                );
                match declare(
                    state.scopes,
                    tokens[index].value,
                    primitive_type,
                    Seq::empty(),
                    SymbolType::FunctionParameter,
                    Some(ordinal),
                    index,
                ) {
                    Ok((scopes, _)) => {
                        if index + 3 < tokens.len() {
                            lemma_parameter_list_keeps_outer_scopes(
                                tokens,
                                ParseState { index: index + 4, scopes },
                                ordinal + 1,
                            );
                        }
                    },
                    Err(_) => {},
                }
            },
            Err(_) => {},
        }
    }
}

/// A statement changes the innermost scope only.
pub proof fn lemma_statement_keeps_outer_scopes(tokens: Seq<TokenView>, state: ParseState)
    requires
        state.scopes.len() > 0,
    ensures
        statement(tokens, state) matches Ok((_, after)) ==> same_outer_scopes(
            state.scopes,
            after.scopes,
        ),
    decreases tokens.len() - state.index, 1int,
{
    let index = state.index;
    if 0 <= index < tokens.len() {
        match tokens[index].token_type {
            TokenType::LeftBrace => lemma_block_restores_scopes(tokens, state),
            TokenType::If => lemma_if_restores_scopes(tokens, state),
            TokenType::While => lemma_while_restores_scopes(tokens, state),
            TokenType::Function => lemma_function_keeps_outer_scopes(tokens, state),
            TokenType::Var => {
                match variable_type(tokens, state.scopes, index + 3) {
                    Ok((primitive_type, _)) => {
                        lemma_declare_keeps_outer_scopes(
                            state.scopes,
                            tokens[index + 1].value,
                            primitive_type,
                            Seq::empty(),
                            SymbolType::Variable,
                            None,
                            index + 1,
                        );
                    },
                    Err(_) => {},
                }
            },
            _ => {},
        }
    }
}

/// The statements of a block change the innermost scope only.
pub proof fn lemma_statements_keep_outer_scopes(tokens: Seq<TokenView>, state: ParseState)
    requires
        state.scopes.len() > 0,
    ensures
        statements(tokens, state) matches Ok((_, after)) ==> same_outer_scopes(
            state.scopes,
            after.scopes,
        ),
    decreases tokens.len() - state.index, 2int,
{
    let index = state.index;
    if 0 <= index < tokens.len() && !(tokens[index].token_type is RightBrace) {
        lemma_statement_keeps_outer_scopes(tokens, state);
        match statement(tokens, state) {
            Ok((_, next)) => {
                if advanced(tokens, index, next) {
                    lemma_statements_keep_outer_scopes(tokens, next);
                }
            },
            Err(_) => {},
        }
    }
}

/// A block leaves the scopes as it found them.
pub proof fn lemma_block_restores_scopes(tokens: Seq<TokenView>, state: ParseState)
    ensures
        block(tokens, state) matches Ok((_, after)) ==> after.scopes == state.scopes,
    decreases tokens.len() - state.index, 0int,
{
    if 0 <= state.index < tokens.len() {
        let inside = ParseState {
            index: state.index + 1,
            scopes: state.scopes.push(ScopeView::empty()),
        };
        lemma_statements_keep_outer_scopes(tokens, inside);
    }
}

/// An `if` leaves the scopes as it found them.
pub proof fn lemma_if_restores_scopes(tokens: Seq<TokenView>, state: ParseState)
    ensures
        if_statement(tokens, state) matches Ok((_, after)) ==> after.scopes == state.scopes,
    decreases tokens.len() - state.index, 0int,
{
    let index = state.index;
    match expression(tokens, state.scopes, index + 1, OperatorPrecedence::Zero) {
        Ok((_, next)) => {
            if index < next <= tokens.len() {
                let inside = ParseState { index: next, scopes: state.scopes };
                lemma_block_restores_scopes(tokens, inside);
                match block(tokens, inside) {
                    Ok((_, after)) => {
                        if index < after.index < tokens.len() {
                            lemma_block_restores_scopes(
                                tokens,
                                ParseState { index: after.index + 1, scopes: after.scopes },
                            );
                        }
                    },
                    Err(_) => {},
                }
            }
        },
        Err(_) => {},
    }
}

/// A `while` leaves the scopes as it found them.
pub proof fn lemma_while_restores_scopes(tokens: Seq<TokenView>, state: ParseState)
    ensures
        while_statement(tokens, state) matches Ok((_, after)) ==> after.scopes == state.scopes,
    decreases tokens.len() - state.index, 0int,
{
    let index = state.index;
    match expression(tokens, state.scopes, index + 1, OperatorPrecedence::Zero) {
        Ok((_, next)) => {
            if index < next <= tokens.len() {
                lemma_block_restores_scopes(tokens, ParseState { index: next, scopes: state.scopes });
            }
        },
        Err(_) => {},
    }
}

/// A function changes the innermost scope only: its parameters and the
/// function itself are declared there.
pub proof fn lemma_function_keeps_outer_scopes(tokens: Seq<TokenView>, state: ParseState)
    requires
        state.scopes.len() > 0,
    ensures
        function(tokens, state) matches Ok((_, after)) ==> same_outer_scopes(
            state.scopes,
            after.scopes,
        ),
    decreases tokens.len() - state.index, 0int,
{
    let index = state.index;
    let start = ParseState { index: index + 3, scopes: state.scopes };
    lemma_parameter_list_keeps_outer_scopes(tokens, start, 0);
    match parameter_list(tokens, start, 0) {
        Ok((parameter_types, at_paren)) => {
            match expect(tokens, at_paren.scopes, at_paren.index, TokenType::RightParen) {
                Ok(next) => {
                    if index < next <= tokens.len() {
                        let inside = ParseState { index: next, scopes: at_paren.scopes };
                        lemma_block_restores_scopes(tokens, inside);
                        match block(tokens, inside) {
                            Ok((_, after)) => {
                                lemma_declare_keeps_outer_scopes(
                                    after.scopes,
                                    tokens[index + 1].value,
                                    PrimitiveType::Void,
                                    parameter_types,
                                    SymbolType::Function,
                                    None,
                                    index + 1,
                                );
                            },
                            Err(_) => {},
                        }
                    }
                },
                Err(_) => {},
            }
        },
        Err(_) => {},
    }
}

/// The statements of a program change the innermost scope only.
pub proof fn lemma_program_keeps_outer_scopes(tokens: Seq<TokenView>, state: ParseState)
    requires
        state.scopes.len() > 0,
    ensures
        program_statements(tokens, state) matches Ok((_, after)) ==> same_outer_scopes(
            state.scopes,
            after.scopes,
        ),
    decreases tokens.len() - state.index, 2int,
{
    if 0 <= state.index < tokens.len() {
        lemma_statement_keeps_outer_scopes(tokens, state);
        match statement(tokens, state) {
            Ok((_, next)) => {
                if advanced(tokens, state.index, next) {
                    lemma_program_keeps_outer_scopes(tokens, next);
                }
            },
            Err(_) => {},
        }
    }
}

} // verus!
