//! Every tree that the grammar gives is well typed. The two operands of
//! every binary operation are equally wide, because the narrower operand is
//! widened wherever the widths differ; the code generator relies on this.
//! And every condition is a `Bool`.

use vstd::prelude::*;
use crate::ast::{AstView, BinaryOperationType};
use crate::grammar::{
    advanced, arguments, assignment, block, combine, expression, expression_rest, function,
    function_call, if_statement, lookup, operator_of, parameter_list, precedence_of, program,
    program_statements, statement, statements, unary_expression, while_statement, ParseState,
};
use crate::precedence::OperatorPrecedence;
use crate::lexer::{TokenType, TokenView};
use crate::scope::ScopeView;
use crate::types::PrimitiveType;

verus! {

/// Two well-typed operands are joined into a well-typed node.
pub proof fn lemma_combine_well_typed(operation: BinaryOperationType, left: AstView, right: AstView)
    requires
        left.well_typed(),
        right.well_typed(),
    ensures
        combine(operation, left, right) matches Some(node) ==> node.well_typed(),
{
    let left_type = left.primitive_type();
    let right_type = right.primitive_type();
    if left_type.compatible(right_type, false) {
        if left_type.size() > right_type.size() {
            let widened = AstView::Widen(left_type, Box::new(right));
            assert(widened.well_typed());
        } else if left_type.size() < right_type.size() {
            let widened = AstView::Widen(right_type, Box::new(left));
            assert(widened.well_typed());
        }
    }
}

/// Every operand that the grammar reads is well typed.
pub proof fn lemma_unary_expression_well_typed(
    tokens: Seq<TokenView>,
    scopes: Seq<ScopeView>,
    index: int,
)
    ensures
        unary_expression(tokens, scopes, index) matches Ok((node, _)) ==> node.well_typed(),
    decreases tokens.len() - index, 0int,
{
    if 0 <= index < tokens.len() && tokens[index].token_type is LeftParen {
        lemma_expression_well_typed(tokens, scopes, index + 1, OperatorPrecedence::Zero);
    }
}

/// Every expression that the grammar reads is well typed.
pub proof fn lemma_expression_well_typed(
    tokens: Seq<TokenView>,
    scopes: Seq<ScopeView>,
    index: int,
    floor: OperatorPrecedence,
)
    ensures
        expression(tokens, scopes, index, floor) matches Ok((node, _)) ==> node.well_typed(),
    decreases tokens.len() - index, 1int,
{
    lemma_unary_expression_well_typed(tokens, scopes, index);
    match unary_expression(tokens, scopes, index) {
        Ok((left, next)) => {
            if index < next <= tokens.len() {
                lemma_expression_rest_well_typed(tokens, scopes, next, floor, left);
            }
        },
        Err(_) => {},
    }
}

/// An expression that goes on from a well-typed operand is well typed.
pub proof fn lemma_expression_rest_well_typed(
    tokens: Seq<TokenView>,
    scopes: Seq<ScopeView>,
    index: int,
    floor: OperatorPrecedence,
    left: AstView,
)
    requires
        left.well_typed(),
    ensures
        expression_rest(tokens, scopes, index, floor, left) matches Ok((node, _))
            ==> node.well_typed(),
    decreases tokens.len() - index, 2int,
{
    if 0 <= index < tokens.len() {
        match operator_of(tokens[index].token_type) {
            Some(operation) => {
                let strength = precedence_of(operation);
                lemma_expression_well_typed(tokens, scopes, index + 1, strength);
                match expression(tokens, scopes, index + 1, strength) {
                    Ok((right, next)) => {
                        lemma_combine_well_typed(operation, left, right);
                        match combine(operation, left, right) {
                            Some(node) => {
                                if index < next <= tokens.len() {
                                    lemma_expression_rest_well_typed(tokens, scopes, next, floor, node);
                                }
                            },
                            None => {},
                        }
                    },
                    Err(_) => {},
                }
            },
            None => {},
        }
    }
}

/// Every argument of a call that the grammar reads is well typed.
pub proof fn lemma_arguments_well_typed(
    tokens: Seq<TokenView>,
    scopes: Seq<ScopeView>,
    index: int,
    parameter_types: Seq<PrimitiveType>,
    ordinal: int,
)
    ensures
        arguments(tokens, scopes, index, parameter_types, ordinal) matches Ok((values, _))
            ==> forall|i: int| 0 <= i < values.len() ==> (#[trigger] values[i]).well_typed(),
    decreases tokens.len() - index,
{
    if 0 <= index < tokens.len() && !(tokens[index].token_type is RightParen) {
        lemma_expression_well_typed(tokens, scopes, index, OperatorPrecedence::Zero);
        match expression(tokens, scopes, index, OperatorPrecedence::Zero) {
            Ok((argument, next)) => {
                if index < next < tokens.len() {
                    lemma_arguments_well_typed(tokens, scopes, next + 1, parameter_types, ordinal + 1);
                }
            },
            Err(_) => {},
        }
    }
}

/// Every assignment that the grammar reads is well typed.
pub proof fn lemma_assignment_well_typed(tokens: Seq<TokenView>, state: ParseState)
    ensures
        assignment(tokens, state) matches Ok((node, _)) ==> node.well_typed(),
{
    let index = state.index;
    lemma_expression_well_typed(tokens, state.scopes, index + 2, OperatorPrecedence::Zero);
    match expression(tokens, state.scopes, index + 2, OperatorPrecedence::Zero) {
        Ok((value, _)) => {
            match lookup(state.scopes, tokens[index].value) {
                Some(symbol) => {
                    let widened = AstView::Widen(symbol.primitive_type, Box::new(value));
                    assert(widened.well_typed());
                },
                None => {},
            }
        },
        Err(_) => {},
    }
}

/// Every call that the grammar reads is well typed.
pub proof fn lemma_function_call_well_typed(tokens: Seq<TokenView>, state: ParseState)
    ensures
        function_call(tokens, state) matches Ok((node, _)) ==> node.well_typed(),
{
    let index = state.index;
    match lookup(state.scopes, tokens[index].value) {
        Some(symbol) => {
            lemma_arguments_well_typed(tokens, state.scopes, index + 2, symbol.parameter_types, 0);
        },
        None => {},
    }
}

/// Every statement that the grammar reads is well typed.
pub proof fn lemma_statement_well_typed(tokens: Seq<TokenView>, state: ParseState)
    ensures
        statement(tokens, state) matches Ok((node, _)) ==> node.well_typed(),
    decreases tokens.len() - state.index, 1int,
{
    let index = state.index;
    if 0 <= index < tokens.len() {
        match tokens[index].token_type {
            TokenType::LeftBrace => lemma_block_well_typed(tokens, state),
            TokenType::If => lemma_if_well_typed(tokens, state),
            TokenType::While => lemma_while_well_typed(tokens, state),
            TokenType::Function => lemma_function_well_typed(tokens, state),
            TokenType::Identifier => {
                lemma_assignment_well_typed(tokens, state);
                lemma_function_call_well_typed(tokens, state);
            },
            _ => {},
        }
    }
}

/// The statements of every block that the grammar reads are well typed.
pub proof fn lemma_statements_well_typed(tokens: Seq<TokenView>, state: ParseState)
    ensures
        statements(tokens, state) matches Ok((children, _)) ==> forall|i: int|
            0 <= i < children.len() ==> (#[trigger] children[i]).well_typed(),
    decreases tokens.len() - state.index, 2int,
{
    let index = state.index;
    if 0 <= index < tokens.len() && !(tokens[index].token_type is RightBrace) {
        lemma_statement_well_typed(tokens, state);
        match statement(tokens, state) {
            Ok((node, next)) => {
                if advanced(tokens, index, next) {
                    lemma_statements_well_typed(tokens, next);
                }
            },
            Err(_) => {},
        }
    }
}

/// Every block that the grammar reads is well typed.
pub proof fn lemma_block_well_typed(tokens: Seq<TokenView>, state: ParseState)
    ensures
        block(tokens, state) matches Ok((node, _)) ==> node.well_typed(),
    decreases tokens.len() - state.index, 0int,
{
    if 0 <= state.index < tokens.len() {
        lemma_statements_well_typed(
            tokens,
            ParseState {
                index: state.index + 1,
                scopes: state.scopes.push(ScopeView::empty()),
            },
        );
    }
}

/// Every `if` that the grammar reads is well typed.
pub proof fn lemma_if_well_typed(tokens: Seq<TokenView>, state: ParseState)
    ensures
        if_statement(tokens, state) matches Ok((node, _)) ==> node.well_typed(),
    decreases tokens.len() - state.index, 0int,
{
    let index = state.index;
    lemma_expression_well_typed(tokens, state.scopes, index + 1, OperatorPrecedence::Zero);
    match expression(tokens, state.scopes, index + 1, OperatorPrecedence::Zero) {
        Ok((condition, next)) => {
            if index < next <= tokens.len() {
                let inside = ParseState { index: next, scopes: state.scopes };
                lemma_block_well_typed(tokens, inside);
                match block(tokens, inside) {
                    Ok((body, after)) => {
                        if index < after.index < tokens.len() {
                            lemma_block_well_typed(
                                tokens,
                                ParseState { index: after.index + 1, scopes: after.scopes },
                            );
                        }
                    },
                    Err(_) => {},
                }
            }
        },
        Err(_) => {},
    }
}

/// Every `while` that the grammar reads is well typed.
pub proof fn lemma_while_well_typed(tokens: Seq<TokenView>, state: ParseState)
    ensures
        while_statement(tokens, state) matches Ok((node, _)) ==> node.well_typed(),
    decreases tokens.len() - state.index, 0int,
{
    let index = state.index;
    lemma_expression_well_typed(tokens, state.scopes, index + 1, OperatorPrecedence::Zero);
    match expression(tokens, state.scopes, index + 1, OperatorPrecedence::Zero) {
        Ok((condition, next)) => {
            if index < next <= tokens.len() {
                lemma_block_well_typed(tokens, ParseState { index: next, scopes: state.scopes });
            }
        },
        Err(_) => {},
    }
}

/// Every function that the grammar reads is well typed.
pub proof fn lemma_function_well_typed(tokens: Seq<TokenView>, state: ParseState)
    ensures
        function(tokens, state) matches Ok((node, _)) ==> node.well_typed(),
    decreases tokens.len() - state.index, 0int,
{
    let index = state.index;
    match parameter_list(
        tokens,
        ParseState { index: index + 3, scopes: state.scopes },
        0,
    ) {
        Ok((_, at_paren)) => {
            let next = at_paren.index + 1;
            if index < next <= tokens.len() {
                lemma_block_well_typed(tokens, ParseState { index: next, scopes: at_paren.scopes });
            }
        },
        Err(_) => {},
    }
}

/// The statements of every program that parses are well typed.
pub proof fn lemma_program_statements_well_typed(tokens: Seq<TokenView>, state: ParseState)
    ensures
        program_statements(tokens, state) matches Ok((children, _)) ==> forall|i: int|
            0 <= i < children.len() ==> (#[trigger] children[i]).well_typed(),
    decreases tokens.len() - state.index, 2int,
{
    if 0 <= state.index < tokens.len() {
        lemma_statement_well_typed(tokens, state);
        match statement(tokens, state) {
            Ok((node, next)) => {
                if advanced(tokens, state.index, next) {
                    lemma_program_statements_well_typed(tokens, next);
                }
            },
            Err(_) => {},
        }
    }
}

/// The tree of every program that parses is well typed: the two operands
/// of every binary operation are equally wide, and every condition is a
/// `Bool`.
pub proof fn lemma_program_well_typed(tokens: Seq<TokenView>, state: ParseState)
    ensures
        program(tokens, state) matches Ok((tree, _)) ==> tree.well_typed(),
{
    lemma_program_statements_well_typed(tokens, state);
}

} // verus!
