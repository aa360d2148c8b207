//! Every construct of the grammar moves forward through the tokens and
//! stays within them. So the questions that the grammar asks before it
//! goes on after a part it has read ("has the index grown? is it within
//! the tokens?") are always answered with yes: they make the definitions
//! well founded and refuse nothing.

use vstd::prelude::*;
use crate::ast::AstView;
use crate::grammar::{
    advanced, arguments, block, combine, declare, expect, expression, expression_rest, function,
    if_statement, lookup, operator_of, parameter_list, precedence_of, program_statements,
    statement, statements, unary_expression, variable_type, while_statement, ParseState,
};
use crate::lexer::{TokenType, TokenView};
use crate::precedence::OperatorPrecedence;
use crate::scope::{ScopeView, SymbolType};
use crate::types::PrimitiveType;

verus! {

/// An operand takes at least one token.
pub proof fn lemma_unary_expression_advances(
    tokens: Seq<TokenView>,
    scopes: Seq<ScopeView>,
    index: int,
)
    ensures
        unary_expression(tokens, scopes, index) matches Ok((_, next)) ==> index < next
            <= tokens.len(),
    decreases tokens.len() - index, 0int,
{
    if 0 <= index < tokens.len() && tokens[index].token_type is LeftParen {
        lemma_expression_advances(tokens, scopes, index + 1, OperatorPrecedence::Zero);
    }
}

/// An expression takes at least one token.
pub proof fn lemma_expression_advances(
    tokens: Seq<TokenView>,
    scopes: Seq<ScopeView>,
    index: int,
    floor: OperatorPrecedence,
)
    ensures
        expression(tokens, scopes, index, floor) matches Ok((_, next)) ==> index < next
            <= tokens.len(),
    decreases tokens.len() - index, 1int,
{
    lemma_unary_expression_advances(tokens, scopes, index);
    match unary_expression(tokens, scopes, index) {
        Ok((left, next)) => {
            lemma_expression_rest_advances(tokens, scopes, next, floor, left);
        },
        Err(_) => {},
    }
}

/// The rest of an expression ends before a token: it never goes back and
/// never ends at the end of the tokens.
pub proof fn lemma_expression_rest_advances(
    tokens: Seq<TokenView>,
    scopes: Seq<ScopeView>,
    index: int,
    floor: OperatorPrecedence,
    left: AstView,
)
    ensures
        expression_rest(tokens, scopes, index, floor, left) matches Ok((_, next)) ==> index
            <= next < tokens.len(),
    decreases tokens.len() - index, 2int,
{
    if 0 <= index < tokens.len() {
        match operator_of(tokens[index].token_type) {
            Some(operation) => {
                let strength = precedence_of(operation);
                lemma_expression_advances(tokens, scopes, index + 1, strength);
                match expression(tokens, scopes, index + 1, strength) {
                    Ok((right, next)) => {
                        match combine(operation, left, right) {
                            Some(node) => {
                                lemma_expression_rest_advances(tokens, scopes, next, floor, node);
                            },
                            None => {},
                        }
                    },
                    Err(_) => {},
                }
            },
            None => {},
        }
    }
}

/// The arguments of a call end at its closing parenthesis.
pub proof fn lemma_arguments_advance(
    tokens: Seq<TokenView>,
    scopes: Seq<ScopeView>,
    index: int,
    parameter_types: Seq<PrimitiveType>,
    ordinal: int,
)
    ensures
        arguments(tokens, scopes, index, parameter_types, ordinal) matches Ok((_, end)) ==> {
            &&& index <= end < tokens.len()
            &&& tokens[end].token_type is RightParen
        },
    decreases tokens.len() - index,
{
    if 0 <= index < tokens.len() && !(tokens[index].token_type is RightParen) {
        lemma_expression_advances(tokens, scopes, index, OperatorPrecedence::Zero);
        match expression(tokens, scopes, index, OperatorPrecedence::Zero) {
            Ok((_, next)) => {
                if index < next < tokens.len() {
                    lemma_arguments_advance(tokens, scopes, next + 1, parameter_types, ordinal + 1);
                }
            },
            Err(_) => {},
        }
    }
}

/// The parameters of a function end at its closing parenthesis.
pub proof fn lemma_parameter_list_advances(tokens: Seq<TokenView>, state: ParseState, ordinal: int)
    ensures
        parameter_list(tokens, state, ordinal) matches Ok((_, end)) ==> {
            &&& state.index <= end.index < tokens.len()
            &&& tokens[end.index].token_type is RightParen
        },
    decreases tokens.len() - state.index,
{
    let index = state.index;
    if 0 <= index < tokens.len() && !(tokens[index].token_type is RightParen) {
        match variable_type(tokens, state.scopes, index + 2) {
            Ok((primitive_type, _)) => {
                match declare(
                    state.scopes,
                    tokens[index].value,
                    primitive_type,
                    Seq::empty(),
                    SymbolType::FunctionParameter,
                    Some(ordinal),
                    index,
                ) {
                    Ok((scopes, _)) => {
                        if index + 3 < tokens.len() {
                            lemma_parameter_list_advances(
                                tokens,
                                ParseState { index: index + 4, scopes },
                                ordinal + 1,
                            );
                        }
                    },
                    Err(_) => {},
                }
            },
            Err(_) => {},
        }
    }
}

/// A statement takes at least one token.
pub proof fn lemma_statement_advances(tokens: Seq<TokenView>, state: ParseState)
    ensures
        statement(tokens, state) matches Ok((_, after)) ==> advanced(tokens, state.index, after),
    decreases tokens.len() - state.index, 1int,
{
    let index = state.index;
    if 0 <= index < tokens.len() {
        match tokens[index].token_type {
            TokenType::LeftBrace => lemma_block_advances(tokens, state),
            TokenType::If => lemma_if_advances(tokens, state),
            TokenType::While => lemma_while_advances(tokens, state),
            TokenType::Function => lemma_function_advances(tokens, state),
            TokenType::Identifier => {
                lemma_expression_advances(tokens, state.scopes, index + 2, OperatorPrecedence::Zero);
                match lookup(state.scopes, tokens[index].value) {
                    Some(symbol) => {
                        lemma_arguments_advance(
                            tokens,
                            state.scopes,
                            index + 2,
                            symbol.parameter_types,
                            0,
                        );
                    },
                    None => {},
                }
            },
            _ => {},
        }
    }
}

/// The statements of a block end at its closing brace.
pub proof fn lemma_statements_advance(tokens: Seq<TokenView>, state: ParseState)
    ensures
        statements(tokens, state) matches Ok((_, end)) ==> {
            &&& state.index <= end.index < tokens.len()
            &&& tokens[end.index].token_type is RightBrace
        },
    decreases tokens.len() - state.index, 2int,
{
    let index = state.index;
    if 0 <= index < tokens.len() && !(tokens[index].token_type is RightBrace) {
        lemma_statement_advances(tokens, state);
        match statement(tokens, state) {
            Ok((_, next)) => {
                lemma_statements_advance(tokens, next);
            },
            Err(_) => {},
        }
    }
}

/// A block takes at least its two braces.
pub proof fn lemma_block_advances(tokens: Seq<TokenView>, state: ParseState)
    ensures
        block(tokens, state) matches Ok((_, after)) ==> advanced(tokens, state.index, after),
    decreases tokens.len() - state.index, 0int,
{
    if 0 <= state.index < tokens.len() {
        lemma_statements_advance(
            tokens,
            ParseState {
                index: state.index + 1,
                scopes: state.scopes.push(ScopeView::empty()),
            },
        );
    }
}

/// An `if` takes at least one token.
pub proof fn lemma_if_advances(tokens: Seq<TokenView>, state: ParseState)
    ensures
        if_statement(tokens, state) matches Ok((_, after)) ==> advanced(
            tokens,
            state.index,
            after,
        ),
    decreases tokens.len() - state.index, 0int,
{
    let index = state.index;
    lemma_expression_advances(tokens, state.scopes, index + 1, OperatorPrecedence::Zero);
    match expression(tokens, state.scopes, index + 1, OperatorPrecedence::Zero) {
        Ok((_, next)) => {
            if index < next <= tokens.len() {
                let inside = ParseState { index: next, scopes: state.scopes };
                lemma_block_advances(tokens, inside);
                match block(tokens, inside) {
                    Ok((_, after)) => {
                        if index < after.index < tokens.len() {
                            lemma_block_advances(
                                tokens,
                                ParseState { index: after.index + 1, scopes: after.scopes },
                            );
                        }
                    },
                    Err(_) => {},
                }
            }
        },
        Err(_) => {},
    }
}

/// A `while` takes at least one token.
pub proof fn lemma_while_advances(tokens: Seq<TokenView>, state: ParseState)
    ensures
        while_statement(tokens, state) matches Ok((_, after)) ==> advanced(
            tokens,
            state.index,
            after,
        ),
    decreases tokens.len() - state.index, 0int,
{
    let index = state.index;
    lemma_expression_advances(tokens, state.scopes, index + 1, OperatorPrecedence::Zero);
    match expression(tokens, state.scopes, index + 1, OperatorPrecedence::Zero) {
        Ok((_, next)) => {
            if index < next <= tokens.len() {
                lemma_block_advances(tokens, ParseState { index: next, scopes: state.scopes });
            }
        },
        Err(_) => {},
    }
}

/// A function takes at least one token.
pub proof fn lemma_function_advances(tokens: Seq<TokenView>, state: ParseState)
    ensures
        function(tokens, state) matches Ok((_, after)) ==> advanced(tokens, state.index, after),
    decreases tokens.len() - state.index, 0int,
{
    let index = state.index;
    let start = ParseState { index: index + 3, scopes: state.scopes };
    lemma_parameter_list_advances(tokens, start, 0);
    match parameter_list(tokens, start, 0) {
        Ok((_, at_paren)) => {
            match expect(tokens, at_paren.scopes, at_paren.index, TokenType::RightParen) {
                Ok(next) => {
                    if index < next <= tokens.len() {
                        lemma_block_advances(
                            tokens,
                            ParseState { index: next, scopes: at_paren.scopes },
                        );
                    }
                },
                Err(_) => {},
            }
        },
        Err(_) => {},
    }
}

/// A program takes every token.
pub proof fn lemma_program_takes_every_token(tokens: Seq<TokenView>, state: ParseState)
    requires
        0 <= state.index <= tokens.len(),
    ensures
        program_statements(tokens, state) matches Ok((_, end)) ==> end.index == tokens.len(),
    decreases tokens.len() - state.index, 2int,
{
    if state.index < tokens.len() {
        lemma_statement_advances(tokens, state);
        match statement(tokens, state) {
            Ok((_, next)) => {
                lemma_program_takes_every_token(tokens, next);
            },
            Err(_) => {},
        }
    }
}

} // verus!
