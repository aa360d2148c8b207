//! The grammar of the language and what each construct means, as functions
//! from a token sequence and a stack of scopes to a syntax tree. The
//! parser is proved to compute exactly these functions.
//!
//! Where a construct goes on after a part that it has read, it first asks
//! that the part has moved forward within the tokens. That makes the
//! definitions well founded, and it is always so: no construct ever fails
//! on that question.
//!
//! A failure names the offending token and keeps the scopes that were open
//! when it was found: the state in which the parser is left.

use vstd::prelude::*;
use crate::ast::{AstView, BinaryOperationType};
use crate::lexer::{TokenType, TokenView};
use crate::precedence::OperatorPrecedence;
use crate::scope::{ScopeError, ScopeView, SymbolType, SymbolView};
use crate::text::parse_u64_spec;
use crate::types::{PrimitiveType, PrimitiveValue};

verus! {

/// What went wrong in parsing.
#[derive(Debug, PartialEq, Eq, Clone, Copy, Structural)]
pub enum ParseErrorKind {
    /// The tokens ended where one more was needed.
    UnexpectedEndOfInput,
    /// A token of another kind was needed here.
    UnexpectedToken,
    /// The name is declared in no enclosing scope.
    UnknownIdentifier,
    /// The name is already declared in the innermost scope.
    Redeclaration,
    /// The operands of an operator, or an argument and its parameter, have
    /// types that do not go together.
    IncompatibleTypes,
    /// The condition of an `if` or a `while` is not a `Bool`.
    ConditionNotBool,
    /// The type keyword names no type.
    UnknownType,
    /// The integer literal is no unsigned 64-bit decimal number.
    InvalidLiteral,
    /// A call passes more arguments than the callee has parameters.
    TooManyArguments,
    /// The declarations of a scope need more frame than 32 bits count.
    FrameTooLarge,
}

/// A failure of the grammar: what went wrong, the index of the offending
/// token, and the scopes that were open when it was found.
pub struct ParseFailure {
    pub kind: ParseErrorKind,
    pub at: int,
    pub scopes: Seq<ScopeView>,
}

/// Where the parser stands: the index of the next token and the scopes
/// that are open, innermost last.
pub struct ParseState {
    pub index: int,
    pub scopes: Seq<ScopeView>,
}

/// The failure of kind `kind` at the token `at`.
pub open spec fn failure<T>(kind: ParseErrorKind, at: int, scopes: Seq<ScopeView>) -> Result<
    T,
    ParseFailure,
> {
    Err(ParseFailure { kind, at, scopes })
}

/// The binary operator that a token kind writes.
pub open spec fn operator_of(token_type: TokenType) -> Option<BinaryOperationType> {
    match token_type {
        TokenType::Plus => Some(BinaryOperationType::Add),
        TokenType::Minus => Some(BinaryOperationType::Subtract),
        TokenType::Star => Some(BinaryOperationType::Multiply),
        TokenType::Slash => Some(BinaryOperationType::Divide),
        TokenType::DoubleEqualSign => Some(BinaryOperationType::Equals),
        TokenType::NotEqualSign => Some(BinaryOperationType::NotEquals),
        TokenType::LessThan => Some(BinaryOperationType::LessThan),
        TokenType::LessThanOrEqual => Some(BinaryOperationType::LessThanOrEqual),
        TokenType::GreaterThan => Some(BinaryOperationType::GreaterThan),
        TokenType::GreaterThanOrEqual => Some(BinaryOperationType::GreaterThanOrEqual),
        _ => None,
    }
}

/// How tightly a binary operator binds.
pub open spec fn precedence_of(operation: BinaryOperationType) -> OperatorPrecedence {
    match operation {
        BinaryOperationType::Add | BinaryOperationType::Subtract => OperatorPrecedence::AddSubtract,
        BinaryOperationType::Multiply | BinaryOperationType::Divide => OperatorPrecedence::MulDiv,
        BinaryOperationType::Equals | BinaryOperationType::NotEquals => {
            OperatorPrecedence::EqualsNotEquals
        },
        BinaryOperationType::LessThan
        | BinaryOperationType::LessThanOrEqual
        | BinaryOperationType::GreaterThan
        | BinaryOperationType::GreaterThanOrEqual => OperatorPrecedence::LessGreaterThan,
    }
}

/// The token kinds that end an expression.
pub open spec fn ends_expression(token_type: TokenType) -> bool {
    token_type is SemiColon || token_type is RightParen || token_type is Comma
        || token_type is LeftBrace
}

/// The symbol that `name` means: the one of the innermost scope that
/// declares it.
pub open spec fn lookup(scopes: Seq<ScopeView>, name: Seq<char>) -> Option<SymbolView>
    decreases scopes.len(),
{
    if scopes.len() == 0 {
        None
    } else {
        match scopes.last().get(name) {
            Some(symbol) => Some(symbol),
            None => lookup(scopes.drop_last(), name),
        }
    }
}

/// The index after the token at `index`, which must be of kind
/// `token_type`.
pub open spec fn expect(
    tokens: Seq<TokenView>,
    scopes: Seq<ScopeView>,
    index: int, token_type: TokenType) -> Result<
    int,
    ParseFailure,
> {
    if index < 0 || index >= tokens.len() {
        failure(ParseErrorKind::UnexpectedEndOfInput, index, scopes)
    } else if tokens[index].token_type != token_type {
        failure(ParseErrorKind::UnexpectedToken, index, scopes)
    } else {
        Ok(index + 1)
    }
}

/// The two operands of `operation` joined into one node. Their types must
/// be compatible as operands; the narrower operand is widened to the type
/// of the wider one.
pub open spec fn combine(operation: BinaryOperationType, left: AstView, right: AstView) -> Option<
    AstView,
> {
    let left_type = left.primitive_type();
    let right_type = right.primitive_type();
    if !left_type.compatible(right_type, false) {
        None
    } else if left_type.size() > right_type.size() {
        Some(
            AstView::BinaryOperation(
                operation,
                Box::new(left),
                Box::new(AstView::Widen(left_type, Box::new(right))),
            ),
        )
    } else if left_type.size() < right_type.size() {
        Some(
            AstView::BinaryOperation(
                operation,
                Box::new(AstView::Widen(right_type, Box::new(left))),
                Box::new(right),
            ),
        )
    } else {
        Some(AstView::BinaryOperation(operation, Box::new(left), Box::new(right)))
    }
}

/// The node of an integer literal: its value with the narrowest unsigned
/// type that holds it.
pub open spec fn literal(text: Seq<char>) -> Option<AstView> {
    match parse_u64_spec(text) {
        Some(value) => Some(
            AstView::NumericLiteral(PrimitiveType::of_literal(value), PrimitiveValue { bits: value }),
        ),
        None => None,
    }
}

/// An operand: a parenthesized expression, an integer literal or a
/// declared name. Gives the node and the index after it.
pub open spec fn unary_expression(tokens: Seq<TokenView>, scopes: Seq<ScopeView>, index: int)
    -> Result<(AstView, int), ParseFailure>
    decreases tokens.len() - index, 0int,
{
    if index < 0 || index >= tokens.len() {
        failure(ParseErrorKind::UnexpectedEndOfInput, index, scopes)
    } else {
        match tokens[index].token_type {
            TokenType::LeftParen => match expression(
                tokens,
                scopes,
                index + 1,
                OperatorPrecedence::Zero,
            ) {
                Ok((node, next)) => match expect(tokens, scopes, next, TokenType::RightParen) {
                    Ok(after) => Ok((node, after)),
                    Err(error) => Err(error),
                },
                Err(error) => Err(error),
            },
            TokenType::IntLiteral => match literal(tokens[index].value) {
                Some(node) => Ok((node, index + 1)),
                None => failure(ParseErrorKind::InvalidLiteral, index, scopes),
            },
            TokenType::Identifier => match lookup(scopes, tokens[index].value) {
                Some(symbol) => Ok((AstView::Identifier(symbol), index + 1)),
                None => failure(ParseErrorKind::UnknownIdentifier, index, scopes),
            },
            _ => failure(ParseErrorKind::UnexpectedToken, index, scopes),
        }
    }
}

/// An expression whose operators all bind tighter than `floor`: an
/// operand, then operators and operands for as long as the next operator
/// binds tighter than `floor`. Gives the node and the index after it.
pub open spec fn expression(
    tokens: Seq<TokenView>,
    scopes: Seq<ScopeView>,
    index: int,
    floor: OperatorPrecedence,
) -> Result<(AstView, int), ParseFailure>
    decreases tokens.len() - index, 1int,
{
    match unary_expression(tokens, scopes, index) {
        Ok((left, next)) => {
            if index < next <= tokens.len() {
                expression_rest(tokens, scopes, next, floor, left)
            } else {
                failure(ParseErrorKind::UnexpectedEndOfInput, next, scopes)
            }
        },
        Err(error) => Err(error),
    }
}

/// The rest of an expression of which `left` has been read and which goes
/// on at `index`. The expression ends before `;`, `)`, `,` and `{`, and
/// before an operator that binds no tighter than `floor`. Operators of
/// equal strength group to the left: the right operand of an operator is
/// read with that operator's strength as its floor.
pub open spec fn expression_rest(
    tokens: Seq<TokenView>,
    scopes: Seq<ScopeView>,
    index: int,
    floor: OperatorPrecedence,
    left: AstView,
) -> Result<(AstView, int), ParseFailure>
    decreases tokens.len() - index, 2int,
{
    if index < 0 || index >= tokens.len() {
        failure(ParseErrorKind::UnexpectedEndOfInput, index, scopes)
    } else if ends_expression(tokens[index].token_type) {
        Ok((left, index))
    } else {
        match operator_of(tokens[index].token_type) {
            None => failure(ParseErrorKind::UnexpectedToken, index, scopes),
            Some(operation) => {
                if precedence_of(operation).level() > floor.level() {
                    match expression(tokens, scopes, index + 1, precedence_of(operation)) {
                        Ok((right, next)) => match combine(operation, left, right) {
                            Some(node) => {
                                if index < next <= tokens.len() {
                                    expression_rest(tokens, scopes, next, floor, node)
                                } else {
                                    failure(ParseErrorKind::UnexpectedEndOfInput, next, scopes)
                                }
                            },
                            None => failure(ParseErrorKind::IncompatibleTypes, index, scopes),
                        },
                        Err(error) => Err(error),
                    }
                } else {
                    Ok((left, index))
                }
            },
        }
    }
}

/// The type that the `Type` token at `index` names, and the index after it.
pub open spec fn variable_type(
    tokens: Seq<TokenView>,
    scopes: Seq<ScopeView>,
    index: int) -> Result<
    (PrimitiveType, int),
    ParseFailure,
> {
    match expect(tokens, scopes, index, TokenType::Type) {
        Ok(next) => match PrimitiveType::named(tokens[index].value) {
            Some(primitive_type) => Ok((primitive_type, next)),
            None => failure(ParseErrorKind::UnknownType, index, scopes),
        },
        Err(error) => Err(error),
    }
}

/// The scopes after a declaration in the innermost one, and the symbol
/// declared. A refusal of the scope is reported at the token `at`.
pub open spec fn declare(
    scopes: Seq<ScopeView>,
    name: Seq<char>,
    primitive_type: PrimitiveType,
    parameter_types: Seq<PrimitiveType>,
    symbol_type: SymbolType,
    offset: Option<int>,
    at: int,
) -> Result<(Seq<ScopeView>, SymbolView), ParseFailure>
    recommends
        scopes.len() > 0,
{
    let added = match offset {
        Some(location) => scopes.last().add_with_offset(
            name,
            primitive_type,
            parameter_types,
            symbol_type,
            location,
        ),
        None => scopes.last().add(name, primitive_type, parameter_types, symbol_type),
    };
    match added {
        Ok((scope, symbol)) => Ok((scopes.drop_last().push(scope), symbol)),
        Err(ScopeError::Redeclaration) => failure(ParseErrorKind::Redeclaration, at, scopes),
        Err(ScopeError::FrameTooLarge) => failure(ParseErrorKind::FrameTooLarge, at, scopes),
    }
}

/// `var name : type ;` declares a variable in the innermost scope.
pub open spec fn variable_declaration(tokens: Seq<TokenView>, state: ParseState) -> Result<
    (AstView, ParseState),
    ParseFailure,
> {
    let index = state.index;
    match expect(tokens, state.scopes, index, TokenType::Var) {
        Err(error) => Err(error),
        Ok(_) => match expect(tokens, state.scopes, index + 1, TokenType::Identifier) {
            Err(error) => Err(error),
            Ok(_) => match expect(tokens, state.scopes, index + 2, TokenType::Colon) {
                Err(error) => Err(error),
                Ok(_) => match variable_type(tokens, state.scopes, index + 3) {
                    Err(error) => Err(error),
                    Ok((primitive_type, _)) => match expect(
                        tokens,
                        state.scopes,
                        index + 4,
                        TokenType::SemiColon,
                    ) {
                        Err(error) => Err(error),
                        Ok(_) => match declare(
                            state.scopes,
                            tokens[index + 1].value,
                            primitive_type,
                            Seq::empty(),
                            SymbolType::Variable,
                            None,
                            index + 1,
                        ) {
                            Err(error) => Err(error),
                            Ok((scopes, symbol)) => Ok(
                                (
                                    AstView::VariableDeclaration(symbol),
                                    ParseState { index: index + 5, scopes },
                                ),
                            ),
                        },
                    },
                },
            },
        },
    }
}

/// `name = expression ;` assigns to a declared name. Where the variable is
/// wider than the expression, the expression is widened to the variable's
/// type.
pub open spec fn assignment(tokens: Seq<TokenView>, state: ParseState) -> Result<
    (AstView, ParseState),
    ParseFailure,
> {
    let index = state.index;
    match expect(tokens, state.scopes, index, TokenType::Identifier) {
        Err(error) => Err(error),
        Ok(_) => match expect(tokens, state.scopes, index + 1, TokenType::EqualSign) {
            Err(error) => Err(error),
            Ok(_) => match expression(tokens, state.scopes, index + 2, OperatorPrecedence::Zero) {
                Err(error) => Err(error),
                Ok((value, next)) => match expect(tokens, state.scopes, next, TokenType::SemiColon) {
                    Err(error) => Err(error),
                    Ok(after) => match lookup(state.scopes, tokens[index].value) {
                        None => failure(ParseErrorKind::UnknownIdentifier, index, state.scopes),
                        Some(symbol) => Ok(
                            (
                                AstView::Assignment(
                                    symbol,
                                    Box::new(
                                        if symbol.primitive_type.size()
                                            > value.primitive_type().size() {
                                            AstView::Widen(symbol.primitive_type, Box::new(value))
                                        } else {
                                            value
                                        },
                                    ),
                                ),
                                ParseState { index: after, scopes: state.scopes },
                            ),
                        ),
                    },
                },
            },
        },
    }
}

/// The arguments of a call from `index` on, up to the closing parenthesis,
/// of which `ordinal` have been read. Each must be compatible, in the
/// one-sided direction, with the parameter of its position. Arguments are
/// separated by commas. Gives the arguments and the index of the closing
/// parenthesis.
pub open spec fn arguments(
    tokens: Seq<TokenView>,
    scopes: Seq<ScopeView>,
    index: int,
    parameter_types: Seq<PrimitiveType>,
    ordinal: int,
) -> Result<(Seq<AstView>, int), ParseFailure>
    decreases tokens.len() - index,
{
    if index < 0 || index >= tokens.len() {
        failure(ParseErrorKind::UnexpectedEndOfInput, index, scopes)
    } else if tokens[index].token_type is RightParen {
        Ok((Seq::empty(), index))
    } else {
        match expression(tokens, scopes, index, OperatorPrecedence::Zero) {
            Err(error) => Err(error),
            Ok((argument, next)) => {
                if ordinal < 0 || ordinal >= parameter_types.len() {
                    failure(ParseErrorKind::TooManyArguments, index, scopes)
                } else if !argument.primitive_type().compatible(parameter_types[ordinal], true) {
                    failure(ParseErrorKind::IncompatibleTypes, index, scopes)
                } else if next < 0 || next >= tokens.len() {
                    failure(ParseErrorKind::UnexpectedEndOfInput, next, scopes)
                } else if tokens[next].token_type is RightParen {
                    Ok((seq![argument], next))
                } else if !(tokens[next].token_type is Comma) {
                    failure(ParseErrorKind::UnexpectedToken, next, scopes)
                } else if !(index < next) {
                    failure(ParseErrorKind::UnexpectedEndOfInput, next, scopes)
                } else {
                    match arguments(tokens, scopes, next + 1, parameter_types, ordinal + 1) {
                        Err(error) => Err(error),
                        Ok((rest, end)) => Ok((seq![argument] + rest, end)),
                    }
                }
            },
        }
    }
}

/// `name ( arguments ) ;` calls a declared name.
pub open spec fn function_call(tokens: Seq<TokenView>, state: ParseState) -> Result<
    (AstView, ParseState),
    ParseFailure,
> {
    let index = state.index;
    match expect(tokens, state.scopes, index, TokenType::Identifier) {
        Err(error) => Err(error),
        Ok(_) => match expect(tokens, state.scopes, index + 1, TokenType::LeftParen) {
            Err(error) => Err(error),
            Ok(_) => match lookup(state.scopes, tokens[index].value) {
                None => failure(ParseErrorKind::UnknownIdentifier, index, state.scopes),
                Some(symbol) => match arguments(
                    tokens,
                    state.scopes,
                    index + 2,
                    symbol.parameter_types,
                    0,
                ) {
                    Err(error) => Err(error),
                    Ok((values, end)) => match expect(tokens, state.scopes, end, TokenType::RightParen) {
                        Err(error) => Err(error),
                        Ok(_) => match expect(tokens, state.scopes, end + 1, TokenType::SemiColon) {
                            Err(error) => Err(error),
                            Ok(after) => Ok(
                                (
                                    AstView::FunctionCall(tokens[index].value, values),
                                    ParseState { index: after, scopes: state.scopes },
                                ),
                            ),
                        },
                    },
                },
            },
        },
    }
}

/// The parameters of a function from `state.index` on, up to the closing
/// parenthesis, of which `ordinal` have been read. Each `name : type` is
/// declared in the innermost scope as a function parameter whose location
/// is its ordinal. Gives the parameter types and the state at the closing
/// parenthesis.
pub open spec fn parameter_list(tokens: Seq<TokenView>, state: ParseState, ordinal: int) -> Result<
    (Seq<PrimitiveType>, ParseState),
    ParseFailure,
>
    decreases tokens.len() - state.index,
{
    let index = state.index;
    if index < 0 || index >= tokens.len() {
        failure(ParseErrorKind::UnexpectedEndOfInput, index, state.scopes)
    } else if tokens[index].token_type is RightParen {
        Ok((Seq::empty(), state))
    } else {
        match expect(tokens, state.scopes, index, TokenType::Identifier) {
            Err(error) => Err(error),
            Ok(_) => match expect(tokens, state.scopes, index + 1, TokenType::Colon) {
                Err(error) => Err(error),
                Ok(_) => match variable_type(tokens, state.scopes, index + 2) {
                    Err(error) => Err(error),
                    Ok((primitive_type, _)) => match declare(
                        state.scopes,
                        tokens[index].value,
                        primitive_type,
                        Seq::empty(),
                        SymbolType::FunctionParameter,
                        Some(ordinal),
                        index,
                    ) {
                        Err(error) => Err(error),
                        Ok((scopes, _)) => {
                            if index + 3 >= tokens.len() {
                                failure(ParseErrorKind::UnexpectedEndOfInput, index + 3, scopes)
                            } else if tokens[index + 3].token_type is RightParen {
                                Ok((seq![primitive_type], ParseState { index: index + 3, scopes }))
                            } else if !(tokens[index + 3].token_type is Comma) {
                                failure(ParseErrorKind::UnexpectedToken, index + 3, scopes)
                            } else {
                                match parameter_list(
                                    tokens,
                                    ParseState { index: index + 4, scopes },
                                    ordinal + 1,
                                ) {
                                    Err(error) => Err(error),
                                    Ok((rest, end)) => Ok((seq![primitive_type] + rest, end)),
                                }
                            }
                        },
                    },
                },
            },
        }
    }
}

/// Whether a statement parser moved forward within the tokens.
pub open spec fn advanced(tokens: Seq<TokenView>, from: int, to: ParseState) -> bool {
    from < to.index <= tokens.len()
}

/// One statement: a block, an `if`, a `while`, a variable declaration, a
/// function, a call or an assignment, told apart by the first token and,
/// after a name, by the second.
pub open spec fn statement(tokens: Seq<TokenView>, state: ParseState) -> Result<
    (AstView, ParseState),
    ParseFailure,
>
    decreases tokens.len() - state.index, 1int,
{
    let index = state.index;
    if index < 0 || index >= tokens.len() {
        failure(ParseErrorKind::UnexpectedEndOfInput, index, state.scopes)
    } else {
        match tokens[index].token_type {
            TokenType::LeftBrace => block(tokens, state),
            TokenType::If => if_statement(tokens, state),
            TokenType::While => while_statement(tokens, state),
            TokenType::Var => variable_declaration(tokens, state),
            TokenType::Function => function(tokens, state),
            TokenType::Identifier => {
                if index + 1 >= tokens.len() {
                    failure(ParseErrorKind::UnexpectedEndOfInput, index + 1, state.scopes)
                } else {
                    match tokens[index + 1].token_type {
                        TokenType::LeftParen => function_call(tokens, state),
                        TokenType::EqualSign => assignment(tokens, state),
                        _ => failure(ParseErrorKind::UnexpectedToken, index + 1, state.scopes),
                    }
                }
            },
            _ => failure(ParseErrorKind::UnexpectedToken, index, state.scopes),
        }
    }
}

/// The statements from `state.index` on, up to the closing brace of their
/// block. Gives the statements and the state at the closing brace.
pub open spec fn statements(tokens: Seq<TokenView>, state: ParseState) -> Result<
    (Seq<AstView>, ParseState),
    ParseFailure,
>
    decreases tokens.len() - state.index, 2int,
{
    let index = state.index;
    if index < 0 || index >= tokens.len() {
        failure(ParseErrorKind::UnexpectedEndOfInput, index, state.scopes)
    } else if tokens[index].token_type is RightBrace {
        Ok((Seq::empty(), state))
    } else {
        match statement(tokens, state) {
            Err(error) => Err(error),
            Ok((node, next)) => {
                if advanced(tokens, index, next) {
                    match statements(tokens, next) {
                        Err(error) => Err(error),
                        Ok((rest, end)) => Ok((seq![node] + rest, end)),
                    }
                } else {
                    failure(ParseErrorKind::UnexpectedEndOfInput, next.index, next.scopes)
                }
            },
        }
    }
}

/// `{ statements }`: the statements are read in a scope of their own,
/// which is open from the opening brace to the closing one.
pub open spec fn block(tokens: Seq<TokenView>, state: ParseState) -> Result<
    (AstView, ParseState),
    ParseFailure,
>
    decreases tokens.len() - state.index, 0int,
{
    match expect(tokens, state.scopes, state.index, TokenType::LeftBrace) {
        Err(error) => Err(error),
        Ok(next) => match statements(
            tokens,
            ParseState { index: next, scopes: state.scopes.push(ScopeView::empty()) },
        ) {
            Err(error) => Err(error),
            Ok((children, end)) => match expect(tokens, end.scopes, end.index, TokenType::RightBrace) {
                Err(error) => Err(error),
                Ok(after) => Ok(
                    (
                        AstView::Block(children),
                        ParseState { index: after, scopes: end.scopes.drop_last() },
                    ),
                ),
            },
        },
    }
}

/// `if condition block`, with `else block` after it or not. The condition
/// must be a `Bool`.
pub open spec fn if_statement(tokens: Seq<TokenView>, state: ParseState) -> Result<
    (AstView, ParseState),
    ParseFailure,
>
    decreases tokens.len() - state.index, 0int,
{
    let index = state.index;
    match expect(tokens, state.scopes, index, TokenType::If) {
        Err(error) => Err(error),
        Ok(_) => match expression(tokens, state.scopes, index + 1, OperatorPrecedence::Zero) {
            Err(error) => Err(error),
            Ok((condition, next)) => {
                if condition.primitive_type() != PrimitiveType::Bool {
                    failure(ParseErrorKind::ConditionNotBool, index, state.scopes)
                } else if !(index < next <= tokens.len()) {
                    failure(ParseErrorKind::UnexpectedEndOfInput, next, state.scopes)
                } else {
                    match block(tokens, ParseState { index: next, scopes: state.scopes }) {
                        Err(error) => Err(error),
                        Ok((body, after)) => {
                            if after.index < 0 || after.index >= tokens.len() || !(
                            tokens[after.index].token_type is Else) {
                                Ok((AstView::If(Box::new(condition), Box::new(body), None), after))
                            } else if !advanced(tokens, index, after) {
                                failure(ParseErrorKind::UnexpectedEndOfInput, after.index, after.scopes)
                            } else {
                                match block(
                                    tokens,
                                    ParseState { index: after.index + 1, scopes: after.scopes },
                                ) {
                                    Err(error) => Err(error),
                                    Ok((else_body, end)) => Ok(
                                        (
                                            AstView::If(
                                                Box::new(condition),
                                                Box::new(body),
                                                Some(Box::new(else_body)),
                                            ),
                                            end,
                                        ),
                                    ),
                                }
                            }
                        },
                    }
                }
            },
        },
    }
}

/// `while condition block`. The condition must be a `Bool`.
pub open spec fn while_statement(tokens: Seq<TokenView>, state: ParseState) -> Result<
    (AstView, ParseState),
    ParseFailure,
>
    decreases tokens.len() - state.index, 0int,
{
    let index = state.index;
    match expect(tokens, state.scopes, index, TokenType::While) {
        Err(error) => Err(error),
        Ok(_) => match expression(tokens, state.scopes, index + 1, OperatorPrecedence::Zero) {
            Err(error) => Err(error),
            Ok((condition, next)) => {
                if condition.primitive_type() != PrimitiveType::Bool {
                    failure(ParseErrorKind::ConditionNotBool, index, state.scopes)
                } else if !(index < next <= tokens.len()) {
                    failure(ParseErrorKind::UnexpectedEndOfInput, next, state.scopes)
                } else {
                    match block(tokens, ParseState { index: next, scopes: state.scopes }) {
                        Err(error) => Err(error),
                        Ok((body, after)) => Ok(
                            (AstView::While(Box::new(condition), Box::new(body)), after),
                        ),
                    }
                }
            },
        },
    }
}

/// `fn name ( parameters ) block`. The parameters are declared in the
/// scope in which the function stands, and so is the function itself,
/// once its block is read. A function returns nothing.
pub open spec fn function(tokens: Seq<TokenView>, state: ParseState) -> Result<
    (AstView, ParseState),
    ParseFailure,
>
    decreases tokens.len() - state.index, 0int,
{
    let index = state.index;
    match expect(tokens, state.scopes, index, TokenType::Function) {
        Err(error) => Err(error),
        Ok(_) => match expect(tokens, state.scopes, index + 1, TokenType::Identifier) {
            Err(error) => Err(error),
            Ok(_) => match expect(tokens, state.scopes, index + 2, TokenType::LeftParen) {
                Err(error) => Err(error),
                Ok(_) => match parameter_list(
                    tokens,
                    ParseState { index: index + 3, scopes: state.scopes },
                    0,
                ) {
                    Err(error) => Err(error),
                    Ok((parameter_types, at_paren)) => match expect(
                        tokens,
                        at_paren.scopes,
                        at_paren.index,
                        TokenType::RightParen,
                    ) {
                        Err(error) => Err(error),
                        Ok(next) => {
                            if !(index < next <= tokens.len()) {
                                failure(ParseErrorKind::UnexpectedEndOfInput, next, at_paren.scopes)
                            } else {
                                match block(
                                    tokens,
                                    ParseState { index: next, scopes: at_paren.scopes },
                                ) {
                                    Err(error) => Err(error),
                                    Ok((body, after)) => match declare(
                                        after.scopes,
                                        tokens[index + 1].value,
                                        PrimitiveType::Void,
                                        parameter_types,
                                        SymbolType::Function,
                                        None,
                                        index + 1,
                                    ) {
                                        Err(error) => Err(error),
                                        Ok((scopes, symbol)) => Ok(
                                            (
                                                AstView::Function(symbol, Box::new(body)),
                                                ParseState { index: after.index, scopes },
                                            ),
                                        ),
                                    },
                                }
                            }
                        },
                    },
                },
            },
        },
    }
}

/// The statements from `state.index` to the end of the tokens.
pub open spec fn program_statements(tokens: Seq<TokenView>, state: ParseState) -> Result<
    (Seq<AstView>, ParseState),
    ParseFailure,
>
    decreases tokens.len() - state.index, 2int,
{
    if state.index < 0 || state.index >= tokens.len() {
        Ok((Seq::empty(), state))
    } else {
        match statement(tokens, state) {
            Err(error) => Err(error),
            Ok((node, next)) => {
                if advanced(tokens, state.index, next) {
                    match program_statements(tokens, next) {
                        Err(error) => Err(error),
                        Ok((rest, end)) => Ok((seq![node] + rest, end)),
                    }
                } else {
                    failure(ParseErrorKind::UnexpectedEndOfInput, next.index, next.scopes)
                }
            },
        }
    }
}

/// A program: statements up to the end of the tokens, as one block.
pub open spec fn program(tokens: Seq<TokenView>, state: ParseState) -> Result<
    (AstView, ParseState),
    ParseFailure,
> {
    match program_statements(tokens, state) {
        Err(error) => Err(error),
        Ok((children, end)) => Ok((AstView::Block(children), end)),
    }
}

/// The scope `scope` with the external function `name` declared in it.
pub open spec fn with_external_function(
    scope: ScopeView,
    name: Seq<char>,
    parameter_types: Seq<PrimitiveType>,
) -> ScopeView {
    ScopeView {
        symbols: scope.symbols.insert(
            name,
            SymbolView {
                symbol_type: SymbolType::Function,
                primitive_type: PrimitiveType::Void,
                parameter_types,
                name,
                offset: scope.last_offset,
            },
        ),
        last_offset: scope.last_offset,
    }
}

/// The outermost scope of every program: the functions that the runtime
/// provides, each returning nothing.
pub open spec fn runtime_scope() -> ScopeView {
    let s0 = ScopeView::empty();
    let s1 = with_external_function(s0, "printbool"@, seq![PrimitiveType::Bool]);
    let s2 = with_external_function(s1, "print8"@, seq![PrimitiveType::UInt8]);
    let s3 = with_external_function(s2, "print16"@, seq![PrimitiveType::UInt16]);
    let s4 = with_external_function(s3, "print32"@, seq![PrimitiveType::UInt32]);
    let s5 = with_external_function(s4, "print64"@, seq![PrimitiveType::UInt64]);
    with_external_function(s5, "printsum"@, seq![PrimitiveType::UInt32, PrimitiveType::UInt32])
}

} // verus!
