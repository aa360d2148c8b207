//! The parser: recursive descent over statements and precedence climbing
//! over expressions. Names are resolved and types are checked while the
//! tree is built.

use vstd::prelude::*;
use std::str::FromStr;
use crate::ast::{views_of, AstNode, AstView, BinaryOperationType};
use crate::calls::{calls_checked, lemma_program_calls, program_sites};
use crate::grammar::{
    arguments, assignment, block, declare, ends_expression, expect, expression,
    expression_rest, function, function_call, if_statement, lookup, operator_of, parameter_list,
    precedence_of, program, program_statements, runtime_scope, statement, statements,
    unary_expression, variable_declaration, variable_type, while_statement,
    ParseFailure, ParseState,
};
use crate::lexer::{token_views, Token, TokenType, TokenView};
use crate::scope::{Scope, ScopeError, ScopeView, Symbol, SymbolType};
use crate::text::parse_u64;
use crate::types::{PrimitiveType, PrimitiveValue};
use crate::typing::lemma_program_well_typed;

pub use crate::grammar::ParseErrorKind;
pub use crate::precedence::OperatorPrecedence;

verus! {

/// A failure of the parser: what went wrong, and the 1-based line and
/// column of the offending token. Where the tokens ended too early there
/// is no such token, and line and column are 0.
#[derive(Debug, PartialEq, Eq, Clone, Copy, Structural)]
pub struct ParseError {
    pub kind: ParseErrorKind,
    pub line: usize,
    pub col: usize,
}

/// The error of kind `kind` that reports the token `at` to the reader of
/// `tokens`.
pub open spec fn error_at(tokens: Seq<TokenView>, kind: ParseErrorKind, at: int) -> ParseError {
    if 0 <= at < tokens.len() {
        ParseError { kind, line: tokens[at].line as usize, col: tokens[at].col as usize }
    } else {
        ParseError { kind, line: 0, col: 0 }
    }
}

/// The error that reports `failure` to the reader of `tokens`.
pub open spec fn error_of(tokens: Seq<TokenView>, failure: ParseFailure) -> ParseError {
    error_at(tokens, failure.kind, failure.at)
}

/// Where a failure leaves the parser: at the offending token, with the
/// scopes that were open when it was found.
pub open spec fn state_after(failure: ParseFailure) -> ParseState {
    ParseState { index: failure.at, scopes: failure.scopes }
}

/// The views of a stack of scopes.
pub open spec fn scope_views(scopes: Seq<Scope>) -> Seq<ScopeView> {
    Seq::new(scopes.len(), |i: int| scopes[i]@)
}

/// Whether `result`, with the parser left in `after`, is what the grammar
/// gives for an expression.
pub open spec fn expression_outcome(
    tokens: Seq<TokenView>,
    expected: Result<(AstView, int), ParseFailure>,
    result: Result<AstNode, ParseError>,
    start: int,
    after: ParseState,
) -> bool {
    match expected {
        Ok((view, next)) => {
            &&& result is Ok
            &&& result->Ok_0@ == view
            &&& after.index == next
            &&& start < next <= tokens.len()
        },
        Err(failure) => {
            &&& result is Err
            &&& result->Err_0 == error_of(tokens, failure)
            &&& after == state_after(failure)
        },
    }
}

/// Whether `result`, with the parser left in `after`, is what the grammar
/// gives for a statement.
pub open spec fn statement_outcome(
    tokens: Seq<TokenView>,
    expected: Result<(AstView, ParseState), ParseFailure>,
    result: Result<AstNode, ParseError>,
    start: int,
    after: ParseState,
) -> bool {
    match expected {
        Ok((view, state)) => {
            &&& result is Ok
            &&& result->Ok_0@ == view
            &&& after == state
            &&& start < state.index <= tokens.len()
        },
        Err(failure) => {
            &&& result is Err
            &&& result->Err_0 == error_of(tokens, failure)
            &&& after == state_after(failure)
        },
    }
}

/// The binary operator that a token kind writes, if it writes one.
fn token_type_to_operator(token_type: TokenType) -> (operation: Option<BinaryOperationType>)
    ensures
        operation == operator_of(token_type),
{
    match token_type {
        TokenType::Plus => Some(BinaryOperationType::Add),
        TokenType::Minus => Some(BinaryOperationType::Subtract),
        TokenType::Star => Some(BinaryOperationType::Multiply),
        TokenType::Slash => Some(BinaryOperationType::Divide),
        TokenType::DoubleEqualSign => Some(BinaryOperationType::Equals),
        TokenType::NotEqualSign => Some(BinaryOperationType::NotEquals),
        TokenType::LessThan => Some(BinaryOperationType::LessThan),
        TokenType::LessThanOrEqual => Some(BinaryOperationType::LessThanOrEqual),
        TokenType::GreaterThan => Some(BinaryOperationType::GreaterThan),
        TokenType::GreaterThanOrEqual => Some(BinaryOperationType::GreaterThanOrEqual),
        _ => None,
    }
}

/// How tightly a binary operator binds.
fn get_operator_precedence(operation_type: BinaryOperationType) -> (precedence: OperatorPrecedence)
    ensures
        precedence == precedence_of(operation_type),
{
    match operation_type {
        BinaryOperationType::Add | BinaryOperationType::Subtract => OperatorPrecedence::AddSubtract,
        BinaryOperationType::Multiply | BinaryOperationType::Divide => OperatorPrecedence::MulDiv,
        BinaryOperationType::Equals | BinaryOperationType::NotEquals => {
            OperatorPrecedence::EqualsNotEquals
        },
        BinaryOperationType::LessThan
        | BinaryOperationType::LessThanOrEqual
        | BinaryOperationType::GreaterThan
        | BinaryOperationType::GreaterThanOrEqual => OperatorPrecedence::LessGreaterThan,
    }
}

/// Whether a token of this kind ends an expression.
fn break_condition(token_type: TokenType) -> (ends: bool)
    ensures
        ends == ends_expression(token_type),
{
    token_type == TokenType::SemiColon || token_type == TokenType::RightParen || token_type
        == TokenType::Comma || token_type == TokenType::LeftBrace
}

/// A parser over a sequence of tokens.
pub struct Parser {
    tokens: Vec<Token>,
    index: usize,
    scope: Vec<Scope>,
}

impl Parser {
    /// The tokens that are being parsed.
    pub closed spec fn tokens(&self) -> Seq<TokenView> {
        token_views(self.tokens@)
    }

    /// Where the parser stands, and the scopes that are open.
    pub closed spec fn state(&self) -> ParseState {
        ParseState { index: self.index as int, scopes: scope_views(self.scope@) }
    }

    /// The parser stands within its tokens and at least one scope is open.
    pub closed spec fn wf(&self) -> bool {
        &&& self.index <= self.tokens.len()
        &&& self.scope.len() >= 1
        &&& forall|i: int| 0 <= i < self.scope.len() ==> (#[trigger] self.scope[i]).last_offset >= 0
    }

    /// A parser at the start of `tokens`, with the functions of the runtime
    /// declared in its outermost scope.
    pub fn new(tokens: Vec<Token>) -> (parser: Self)
        ensures
            parser.wf(),
            parser.tokens() == token_views(tokens@),
            parser.state() == (ParseState { index: 0, scopes: seq![runtime_scope()] }),
    {
        let mut scope: Vec<Scope> = Vec::new();
        scope.push(Scope::new());
        let mut parser = Parser { tokens, index: 0, scope };
        assert(parser.state().scopes =~= seq![ScopeView::empty()]);
        parser.setup_libc();
        parser
    }

    /// Declares the functions that the runtime provides.
    fn setup_libc(&mut self)
        requires
            old(self).wf(),
            old(self).state().scopes == seq![ScopeView::empty()],
        ensures
            final(self).wf(),
            final(self).tokens == old(self).tokens,
            final(self).index == old(self).index,
            final(self).state().scopes == seq![runtime_scope()],
    {
        // The six names differ: in length, or in their sixth character.
        proof {
            reveal_strlit("printbool");
            reveal_strlit("print8");
            reveal_strlit("print16");
            reveal_strlit("print32");
            reveal_strlit("print64");
            reveal_strlit("printsum");
            assert("printbool"@.len() == 9);
            assert("print8"@.len() == 6);
            assert("print16"@.len() == 7);
            assert("print32"@.len() == 7);
            assert("print64"@.len() == 7);
            assert("printsum"@.len() == 8);
            assert("print16"@[5] != "print32"@[5]);
            assert("print16"@[5] != "print64"@[5]);
            assert("print32"@[5] != "print64"@[5]);
        }
        let mut parameters: Vec<PrimitiveType> = Vec::new();
        parameters.push(PrimitiveType::Bool);
        let _ = self.add_to_scope(
            &"printbool".to_owned(),
            PrimitiveType::Void,
            parameters,
            SymbolType::Function,
            0,
        );
        let mut parameters: Vec<PrimitiveType> = Vec::new();
        parameters.push(PrimitiveType::UInt8);
        let _ = self.add_to_scope(
            &"print8".to_owned(),
            PrimitiveType::Void,
            parameters,
            SymbolType::Function,
            0,
        );
        let mut parameters: Vec<PrimitiveType> = Vec::new();
        parameters.push(PrimitiveType::UInt16);
        let _ = self.add_to_scope(
            &"print16".to_owned(),
            PrimitiveType::Void,
            parameters,
            SymbolType::Function,
            0,
        );
        let mut parameters: Vec<PrimitiveType> = Vec::new();
        parameters.push(PrimitiveType::UInt32);
        let _ = self.add_to_scope(
            &"print32".to_owned(),
            PrimitiveType::Void,
            parameters,
            SymbolType::Function,
            0,
        );
        let mut parameters: Vec<PrimitiveType> = Vec::new();
        parameters.push(PrimitiveType::UInt64);
        let _ = self.add_to_scope(
            &"print64".to_owned(),
            PrimitiveType::Void,
            parameters,
            SymbolType::Function,
            0,
        );
        let mut parameters: Vec<PrimitiveType> = Vec::new();
        parameters.push(PrimitiveType::UInt32);
        parameters.push(PrimitiveType::UInt32);
        assert(parameters@ =~= seq![PrimitiveType::UInt32, PrimitiveType::UInt32]);
        let _ = self.add_to_scope(
            &"printsum".to_owned(),
            PrimitiveType::Void,
            parameters,
            SymbolType::Function,
            0,
        );
    }

    /// The error of kind `kind` that reports the token `at`; the parser is
    /// left standing at that token.
    fn error(&mut self, kind: ParseErrorKind, at: usize) -> (error: ParseError)
        requires
            old(self).wf(),
            at <= old(self).tokens.len(),
        ensures
            error == error_at(old(self).tokens(), kind, at as int),
            final(self).tokens == old(self).tokens,
            final(self).scope == old(self).scope,
            final(self).index == at,
            final(self).wf(),
    {
        self.index = at;
        if at < self.tokens.len() {
            ParseError { kind, line: self.tokens[at].line, col: self.tokens[at].col }
        } else {
            ParseError { kind, line: 0, col: 0 }
        }
    }

    /// The token `index` places after the one at which the parser stands.
    fn peek(&self, index: usize) -> (token: Result<&Token, ParseError>)
        requires
            self.index <= self.tokens.len(),
        ensures
            match token {
                Ok(found) => self.index + index < self.tokens.len() && *found
                    == self.tokens[self.index + index],
                Err(error) => self.index + index >= self.tokens.len() && error == error_at(
                    self.tokens(),
                    ParseErrorKind::UnexpectedEndOfInput,
                    self.index + index,
                ),
            },
    {
        if index >= self.tokens.len() - self.index {
            return Err(ParseError { kind: ParseErrorKind::UnexpectedEndOfInput, line: 0, col: 0 });
        }
        Ok(&self.tokens[self.index + index])
    }

    /// Whether the parser stands at the end of its tokens.
    fn eof(&self) -> (r: bool)
        ensures
            r == (self.index >= self.tokens.len()),
    {
        self.index >= self.tokens.len()
    }

    /// Moves past the token at which the parser stands, and gives its
    /// index.
    fn consume(&mut self) -> (consumed: Result<usize, ParseError>)
        requires
            old(self).wf(),
        ensures
            final(self).tokens == old(self).tokens,
            final(self).scope == old(self).scope,
            final(self).wf(),
            match consumed {
                Ok(at) => at == old(self).index && at < old(self).tokens.len() && final(self).index
                    == at + 1,
                Err(error) => {
                    &&& old(self).index >= old(self).tokens.len()
                    &&& error == error_at(
                        old(self).tokens(),
                        ParseErrorKind::UnexpectedEndOfInput,
                        old(self).index as int,
                    )
                    &&& final(self).index == old(self).index
                },
            },
    {
        if self.eof() {
            return Err(self.error(ParseErrorKind::UnexpectedEndOfInput, self.index));
        }
        let result = self.index;
        self.index += 1;
        Ok(result)
    }

    /// Moves past the token at which the parser stands, which must be of
    /// kind `token_type`, and gives its index.
    fn assert_consume(&mut self, token_type: TokenType) -> (consumed: Result<usize, ParseError>)
        requires
            old(self).wf(),
        ensures
            final(self).tokens == old(self).tokens,
            final(self).scope == old(self).scope,
            final(self).wf(),
            match expect(
                old(self).tokens(),
                old(self).state().scopes,
                old(self).index as int,
                token_type,
            ) {
                Ok(next) => {
                    &&& consumed == Ok::<usize, ParseError>(old(self).index)
                    &&& final(self).index == next
                    &&& next <= old(self).tokens.len()
                },
                Err(failure) => {
                    &&& consumed is Err
                    &&& consumed->Err_0 == error_of(old(self).tokens(), failure)
                    &&& final(self).state() == state_after(failure)
                },
            },
    {
        let found = match self.peek(0) {
            Ok(token) => token.token_type,
            Err(error) => {
                return Err(error);
            },
        };
        if found != token_type {
            return Err(self.error(ParseErrorKind::UnexpectedToken, self.index));
        }
        self.consume()
    }

    /// The symbol that `name` means: that of the innermost open scope that
    /// declares it.
    fn find_scope_var(&self, name: &str) -> (found: Option<&Symbol>)
        ensures
            match found {
                Some(symbol) => lookup(self.state().scopes, name@) == Some(symbol@),
                None => lookup(self.state().scopes, name@) is None,
            },
    {
        let ghost scopes = self.state().scopes;
        let mut depth: usize = self.scope.len();
        proof {
            assert(scopes.subrange(0, scopes.len() as int) =~= scopes);
        }
        while depth > 0
            invariant
                depth <= self.scope.len(),
                scopes == self.state().scopes,
                lookup(scopes, name@) == lookup(scopes.subrange(0, depth as int), name@),
            decreases depth,
        {
            depth -= 1;
            proof {
                let upto = scopes.subrange(0, depth + 1);
                assert(upto.drop_last() =~= scopes.subrange(0, depth as int));
            }
            match self.scope[depth].get(name) {
                Some(symbol) => {
                    return Some(symbol);
                },
                None => {},
            }
        }
        None
    }

    /// Declares `name` in the innermost scope, at the next frame offset. A
    /// refusal is reported at the token `at`.
    fn add_to_scope(
        &mut self,
        name: &String,
        primitive_type: PrimitiveType,
        parameter_types: Vec<PrimitiveType>,
        symbol_type: SymbolType,
        at: usize,
    ) -> (added: Result<Symbol, ParseError>)
        requires
            old(self).wf(),
            at <= old(self).tokens.len(),
        ensures
            final(self).tokens == old(self).tokens,
            final(self).wf(),
            final(self).scope.len() == old(self).scope.len(),
            match declare(
                old(self).state().scopes,
                name@,
                primitive_type,
                parameter_types@,
                symbol_type,
                None,
                at as int,
            ) {
                Ok((scopes, symbol)) => {
                    &&& added is Ok
                    &&& added->Ok_0@ == symbol
                    &&& final(self).state().scopes == scopes
                    &&& final(self).index == old(self).index
                },
                Err(failure) => {
                    &&& added is Err
                    &&& added->Err_0 == error_of(old(self).tokens(), failure)
                    &&& final(self).state() == state_after(failure)
                },
            },
    {
        let scope_count = self.scope.len();
        let ghost before = self.state().scopes;
        match self.scope[scope_count - 1].add(name, primitive_type, parameter_types, symbol_type) {
            Ok(symbol) => Ok(symbol),
            Err(refusal) => {
                assert(self.state().scopes =~= before);
                match refusal {
                    ScopeError::Redeclaration => Err(
                        self.error(ParseErrorKind::Redeclaration, at),
                    ),
                    ScopeError::FrameTooLarge => Err(
                        self.error(ParseErrorKind::FrameTooLarge, at),
                    ),
                }
            },
        }
    }

    /// Declares `name` in the innermost scope, at the location `offset`. A
    /// refusal is reported at the token `at`.
    fn add_to_scope_with_offset(
        &mut self,
        name: &String,
        primitive_type: PrimitiveType,
        parameter_types: Vec<PrimitiveType>,
        symbol_type: SymbolType,
        offset: i32,
        at: usize,
    ) -> (added: Result<Symbol, ParseError>)
        requires
            old(self).wf(),
            at <= old(self).tokens.len(),
        ensures
            final(self).tokens == old(self).tokens,
            final(self).wf(),
            final(self).scope.len() == old(self).scope.len(),
            match declare(
                old(self).state().scopes,
                name@,
                primitive_type,
                parameter_types@,
                symbol_type,
                Some(offset as int),
                at as int,
            ) {
                Ok((scopes, symbol)) => {
                    &&& added is Ok
                    &&& added->Ok_0@ == symbol
                    &&& final(self).state().scopes == scopes
                    &&& final(self).index == old(self).index
                },
                Err(failure) => {
                    &&& added is Err
                    &&& added->Err_0 == error_of(old(self).tokens(), failure)
                    &&& final(self).state() == state_after(failure)
                },
            },
    {
        let scope_count = self.scope.len();
        let ghost before = self.state().scopes;
        match self.scope[scope_count - 1].add_with_offset(
            name,
            primitive_type,
            parameter_types,
            symbol_type,
            offset,
        ) {
            Ok(symbol) => Ok(symbol),
            Err(refusal) => {
                assert(self.state().scopes =~= before);
                match refusal {
                    ScopeError::Redeclaration => Err(
                        self.error(ParseErrorKind::Redeclaration, at),
                    ),
                    ScopeError::FrameTooLarge => Err(
                        self.error(ParseErrorKind::FrameTooLarge, at),
                    ),
                }
            },
        }
    }

    /// An operand: a parenthesized expression, an integer literal or a
    /// declared name.
    fn parse_unary_expression(&mut self) -> (result: Result<AstNode, ParseError>)
        requires
            old(self).wf(),
        ensures
            final(self).tokens == old(self).tokens,
            final(self).scope == old(self).scope,
            final(self).wf(),
            expression_outcome(
                old(self).tokens(),
                unary_expression(
                    old(self).tokens(),
                    old(self).state().scopes,
                    old(self).index as int,
                ),
                result,
                old(self).index as int,
                final(self).state(),
            ),
        decreases old(self).tokens.len() - old(self).index, 0int,
    {
        let start = self.index;
        let token_type = match self.peek(0) {
            Ok(token) => token.token_type,
            Err(error) => {
                return Err(error);
            },
        };
        match token_type {
            TokenType::LeftParen => {
                self.index += 1;
                let expression = match self.parse_expression(OperatorPrecedence::Zero) {
                    Ok(node) => node,
                    Err(error) => {
                        return Err(error);
                    },
                };
                match self.assert_consume(TokenType::RightParen) {
                    Ok(_) => Ok(expression),
                    Err(error) => Err(error),
                }
            },
            TokenType::IntLiteral => {
                let value = match parse_u64(self.tokens[start].value.as_str()) {
                    Some(value) => value,
                    None => {
                        return Err(self.error(ParseErrorKind::InvalidLiteral, start));
                    },
                };
                self.index += 1;
                let primitive_type = PrimitiveType::for_literal(value);
                Ok(AstNode::NumericLiteral(primitive_type, PrimitiveValue { bits: value }))
            },
            TokenType::Identifier => {
                let symbol = match self.find_scope_var(self.tokens[start].value.as_str()) {
                    Some(symbol) => symbol.clone(),
                    None => {
                        return Err(self.error(ParseErrorKind::UnknownIdentifier, start));
                    },
                };
                self.index += 1;
                Ok(AstNode::Identifier(symbol))
            },
            _ => Err(self.error(ParseErrorKind::UnexpectedToken, start)),
        }
    }

    /// An expression whose operators all bind tighter than `precedence`,
    /// read by precedence climbing.
    fn parse_expression(&mut self, precedence: OperatorPrecedence) -> (result: Result<
        AstNode,
        ParseError,
    >)
        requires
            old(self).wf(),
        ensures
            final(self).tokens == old(self).tokens,
            final(self).scope == old(self).scope,
            final(self).wf(),
            expression_outcome(
                old(self).tokens(),
                expression(
                    old(self).tokens(),
                    old(self).state().scopes,
                    old(self).index as int,
                    precedence,
                ),
                result,
                old(self).index as int,
                final(self).state(),
            ),
        decreases old(self).tokens.len() - old(self).index, 1int,
    {
        let ghost tokens = self.tokens();
        let ghost scopes = self.state().scopes;
        let ghost start = self.index as int;
        let ghost goal = expression(tokens, scopes, start, precedence);
        let mut left = match self.parse_unary_expression() {
            Ok(node) => node,
            Err(error) => {
                return Err(error);
            },
        };
        loop
            invariant
                self.wf(),
                self.tokens == old(self).tokens,
                self.scope == old(self).scope,
                tokens == self.tokens(),
                scopes == self.state().scopes,
                start == old(self).index,
                start < self.index <= self.tokens.len(),
                goal == expression(tokens, scopes, start, precedence),
                goal == expression_rest(tokens, scopes, self.index as int, precedence, left@),
            decreases self.tokens.len() - self.index,
        {
            let token_type = match self.peek(0) {
                Ok(token) => token.token_type,
                Err(error) => {
                    return Err(error);
                },
            };
            if break_condition(token_type) {
                return Ok(left);
            }
            let operator_type = match token_type_to_operator(token_type) {
                Some(operation) => operation,
                None => {
                    return Err(self.error(ParseErrorKind::UnexpectedToken, self.index));
                },
            };
            let current_precedence = get_operator_precedence(operator_type);
            if !(current_precedence > precedence) {
                return Ok(left);
            }
            let operator_at = self.index;
            self.index += 1;
            let mut right = match self.parse_expression(current_precedence) {
                Ok(node) => node,
                Err(error) => {
                    return Err(error);
                },
            };
            let left_type = left.get_primitive_type();
            let right_type = right.get_primitive_type();
            if !left_type.is_compatible_with(&right_type, false) {
                return Err(self.error(ParseErrorKind::IncompatibleTypes, operator_at));
            }
            if left_type.get_size() > right_type.get_size() {
                right = AstNode::Widen(left_type, Box::new(right));
            } else if left_type.get_size() < right_type.get_size() {
                left = AstNode::Widen(right_type, Box::new(left));
            }
            let ghost left_operand = left@;
            let ghost right_operand = right@;
            left = AstNode::BinaryOperation(operator_type, Box::new(left), Box::new(right));
            assert(left@ == AstView::BinaryOperation(
                operator_type,
                Box::new(left_operand),
                Box::new(right_operand),
            ));
        }
    }

    /// The type that the `Type` token at which the parser stands names.
    fn parse_variable_type(&mut self) -> (result: Result<PrimitiveType, ParseError>)
        requires
            old(self).wf(),
        ensures
            final(self).tokens == old(self).tokens,
            final(self).scope == old(self).scope,
            final(self).wf(),
            match variable_type(
                old(self).tokens(),
                old(self).state().scopes,
                old(self).index as int,
            ) {
                Ok((primitive_type, next)) => {
                    &&& result == Ok::<PrimitiveType, ParseError>(primitive_type)
                    &&& final(self).index == next
                    &&& primitive_type.size() >= 8
                },
                Err(failure) => {
                    &&& result is Err
                    &&& result->Err_0 == error_of(old(self).tokens(), failure)
                    &&& final(self).state() == state_after(failure)
                },
            },
    {
        let at = match self.assert_consume(TokenType::Type) {
            Ok(at) => at,
            Err(error) => {
                return Err(error);
            },
        };
        match PrimitiveType::from_str(self.tokens[at].value.as_str()) {
            Ok(primitive_type) => Ok(primitive_type),
            Err(_) => Err(self.error(ParseErrorKind::UnknownType, at)),
        }
    }

    /// `var name : type ;`
    fn parse_variable_declaration(&mut self) -> (result: Result<AstNode, ParseError>)
        requires
            old(self).wf(),
        ensures
            final(self).tokens == old(self).tokens,
            final(self).wf(),
            result is Ok ==> final(self).scope.len() == old(self).scope.len(),
            statement_outcome(
                old(self).tokens(),
                variable_declaration(old(self).tokens(), old(self).state()),
                result,
                old(self).index as int,
                final(self).state(),
            ),
    {
        match self.assert_consume(TokenType::Var) {
            Ok(_) => {},
            Err(error) => {
                return Err(error);
            },
        }
        let name_at = match self.assert_consume(TokenType::Identifier) {
            Ok(at) => at,
            Err(error) => {
                return Err(error);
            },
        };
        let name = self.tokens[name_at].value.clone();
        match self.assert_consume(TokenType::Colon) {
            Ok(_) => {},
            Err(error) => {
                return Err(error);
            },
        }
        let primitive_type = match self.parse_variable_type() {
            Ok(primitive_type) => primitive_type,
            Err(error) => {
                return Err(error);
            },
        };
        match self.assert_consume(TokenType::SemiColon) {
            Ok(_) => {},
            Err(error) => {
                return Err(error);
            },
        }
        let symbol = match self.add_to_scope(
            &name,
            primitive_type,
            Vec::new(),
            SymbolType::Variable,
            name_at,
        ) {
            Ok(symbol) => symbol,
            Err(error) => {
                return Err(error);
            },
        };
        Ok(AstNode::VariableDeclaration(symbol))
    }

    /// `name = expression ;`
    fn parse_assignment(&mut self) -> (result: Result<AstNode, ParseError>)
        requires
            old(self).wf(),
        ensures
            final(self).tokens == old(self).tokens,
            final(self).wf(),
            result is Ok ==> final(self).scope.len() == old(self).scope.len(),
            statement_outcome(
                old(self).tokens(),
                assignment(old(self).tokens(), old(self).state()),
                result,
                old(self).index as int,
                final(self).state(),
            ),
    {
        let name_at = match self.assert_consume(TokenType::Identifier) {
            Ok(at) => at,
            Err(error) => {
                return Err(error);
            },
        };
        let identifier_name = self.tokens[name_at].value.clone();
        match self.assert_consume(TokenType::EqualSign) {
            Ok(_) => {},
            Err(error) => {
                return Err(error);
            },
        }
        let mut expression = match self.parse_expression(OperatorPrecedence::Zero) {
            Ok(node) => node,
            Err(error) => {
                return Err(error);
            },
        };
        match self.assert_consume(TokenType::SemiColon) {
            Ok(_) => {},
            Err(error) => {
                return Err(error);
            },
        }
        let scope_var = match self.find_scope_var(identifier_name.as_str()) {
            Some(symbol) => symbol.clone(),
            None => {
                return Err(self.error(ParseErrorKind::UnknownIdentifier, name_at));
            },
        };
        if scope_var.primitive_type.get_size() > expression.get_primitive_type().get_size() {
            expression = AstNode::Widen(scope_var.primitive_type, Box::new(expression));
        }
        let ghost assigned = expression@;
        let node = AstNode::Assignment(scope_var, Box::new(expression));
        assert(node@ == AstView::Assignment(scope_var@, Box::new(assigned)));
        Ok(node)
    }

    /// `name ( arguments ) ;`
    #[verifier::loop_isolation(false)]
    fn parse_functioncall(&mut self) -> (result: Result<AstNode, ParseError>)
        requires
            old(self).wf(),
        ensures
            final(self).tokens == old(self).tokens,
            final(self).wf(),
            result is Ok ==> final(self).scope.len() == old(self).scope.len(),
            statement_outcome(
                old(self).tokens(),
                function_call(old(self).tokens(), old(self).state()),
                result,
                old(self).index as int,
                final(self).state(),
            ),
    {
        let ghost tokens = self.tokens();
        let ghost scopes = self.state().scopes;
        let name_at = match self.assert_consume(TokenType::Identifier) {
            Ok(at) => at,
            Err(error) => {
                return Err(error);
            },
        };
        let function_name = self.tokens[name_at].value.clone();
        match self.assert_consume(TokenType::LeftParen) {
            Ok(_) => {},
            Err(error) => {
                return Err(error);
            },
        }
        let symbol = match self.find_scope_var(function_name.as_str()) {
            Some(symbol) => symbol.clone(),
            None => {
                return Err(self.error(ParseErrorKind::UnknownIdentifier, name_at));
            },
        };
        let mut params: Vec<AstNode> = Vec::new();
        let ghost goal = arguments(tokens, scopes, self.index as int, symbol@.parameter_types, 0);
        let mut done = false;
        while !done
            invariant
                self.wf(),
                self.tokens == old(self).tokens,
                self.scope == old(self).scope,
                old(self).index < self.index <= self.tokens.len(),
                !done ==> goal == match arguments(
                    tokens,
                    scopes,
                    self.index as int,
                    symbol@.parameter_types,
                    params.len() as int,
                ) {
                    Ok((rest, end)) => Ok::<(Seq<AstView>, int), ParseFailure>(
                        (views_of(params@) + rest, end),
                    ),
                    Err(failure) => Err(failure),
                },
                done ==> goal == Ok::<(Seq<AstView>, int), ParseFailure>(
                    (views_of(params@), self.index as int),
                ),
            decreases self.tokens.len() - self.index, if done { 0int } else { 1int },
        {
            let token_type = match self.peek(0) {
                Ok(token) => token.token_type,
                Err(error) => {
                    return Err(error);
                },
            };
            if token_type == TokenType::RightParen {
                done = true;
            } else {
                let argument_at = self.index;
                let expression = match self.parse_expression(OperatorPrecedence::Zero) {
                    Ok(node) => node,
                    Err(error) => {
                        return Err(error);
                    },
                };
                let expression_type = expression.get_primitive_type();
                if params.len() >= symbol.parameter_types.len() {
                    return Err(self.error(ParseErrorKind::TooManyArguments, argument_at));
                }
                if !expression_type.is_compatible_with(
                    &symbol.parameter_types[params.len()],
                    true,
                ) {
                    return Err(self.error(ParseErrorKind::IncompatibleTypes, argument_at));
                }
                let ghost before = params@;
                let ghost argument = expression@;
                params.push(expression);
                proof {
                    assert(views_of(params@) =~= views_of(before) + seq![argument]);
                }
                let token_type = match self.peek(0) {
                    Ok(token) => token.token_type,
                    Err(error) => {
                        return Err(error);
                    },
                };
                if token_type == TokenType::RightParen {
                    done = true;
                } else {
                    match self.assert_consume(TokenType::Comma) {
                        Ok(_) => {},
                        Err(error) => {
                            return Err(error);
                        },
                    }
                    proof {
                        match arguments(
                            tokens,
                            scopes,
                            self.index as int,
                            symbol@.parameter_types,
                            params.len() as int,
                        ) {
                            Ok((rest, end)) => {
                                assert(views_of(before) + (seq![argument] + rest) =~= views_of(
                                    params@,
                                ) + rest);
                            },
                            Err(_) => {},
                        }
                    }
                }
            }
        }
        match self.assert_consume(TokenType::RightParen) {
            Ok(_) => {},
            Err(error) => {
                return Err(error);
            },
        }
        match self.assert_consume(TokenType::SemiColon) {
            Ok(_) => {},
            Err(error) => {
                return Err(error);
            },
        }
        proof {
            AstNode::lemma_model_of_call(function_name, params);
        }
        Ok(AstNode::FunctionCall(function_name, params))
    }

    /// `{ statements }`, read in a scope of their own.
    #[verifier::loop_isolation(false)]
    fn parse_block(&mut self) -> (result: Result<AstNode, ParseError>)
        requires
            old(self).wf(),
        ensures
            final(self).tokens == old(self).tokens,
            final(self).wf(),
            result is Ok ==> final(self).scope.len() == old(self).scope.len(),
            statement_outcome(
                old(self).tokens(),
                block(old(self).tokens(), old(self).state()),
                result,
                old(self).index as int,
                final(self).state(),
            ),
        decreases old(self).tokens.len() - old(self).index, 0int,
    {
        let ghost tokens = self.tokens();
        match self.assert_consume(TokenType::LeftBrace) {
            Ok(_) => {},
            Err(error) => {
                return Err(error);
            },
        }
        self.scope.push(Scope::new());
        let mut children: Vec<AstNode> = Vec::new();
        let ghost inside = self.state();
        let ghost goal = statements(tokens, inside);
        proof {
            assert(inside.scopes =~= old(self).state().scopes.push(ScopeView::empty()));
        }
        let mut done = false;
        while !done
            invariant
                self.wf(),
                self.tokens == old(self).tokens,
                self.scope.len() == old(self).scope.len() + 1,
                old(self).index < self.index <= self.tokens.len(),
                !done ==> goal == match statements(tokens, self.state()) {
                    Ok((rest, end)) => Ok::<(Seq<AstView>, ParseState), ParseFailure>(
                        (views_of(children@) + rest, end),
                    ),
                    Err(failure) => Err(failure),
                },
                done ==> goal == Ok::<(Seq<AstView>, ParseState), ParseFailure>(
                    (views_of(children@), self.state()),
                ),
            decreases self.tokens.len() - self.index, if done { 0int } else { 1int },
        {
            let token_type = match self.peek(0) {
                Ok(token) => token.token_type,
                Err(error) => {
                    return Err(error);
                },
            };
            if token_type == TokenType::RightBrace {
                done = true;
            } else {
                let node = match self.parse_single() {
                    Ok(node) => node,
                    Err(error) => {
                        return Err(error);
                    },
                };
                let ghost before = children@;
                let ghost child = node@;
                children.push(node);
                proof {
                    match statements(tokens, self.state()) {
                        Ok((rest, end)) => {
                            assert(views_of(before) + (seq![child] + rest) =~= views_of(children@)
                                + rest);
                        },
                        Err(_) => {},
                    }
                }
            }
        }
        match self.assert_consume(TokenType::RightBrace) {
            Ok(_) => {},
            Err(error) => {
                return Err(error);
            },
        }
        let ghost before_pop = self.state().scopes;
        self.scope.pop();
        proof {
            assert(self.state().scopes =~= before_pop.drop_last());
            AstNode::lemma_model_of_block(children);
        }
        Ok(AstNode::Block(children))
    }

    /// `if condition block`, with `else block` after it or not.
    fn parse_if(&mut self) -> (result: Result<AstNode, ParseError>)
        requires
            old(self).wf(),
        ensures
            final(self).tokens == old(self).tokens,
            final(self).wf(),
            result is Ok ==> final(self).scope.len() == old(self).scope.len(),
            statement_outcome(
                old(self).tokens(),
                if_statement(old(self).tokens(), old(self).state()),
                result,
                old(self).index as int,
                final(self).state(),
            ),
        decreases old(self).tokens.len() - old(self).index, 0int,
    {
        let if_at = match self.assert_consume(TokenType::If) {
            Ok(at) => at,
            Err(error) => {
                return Err(error);
            },
        };
        let expression = match self.parse_expression(OperatorPrecedence::Zero) {
            Ok(node) => node,
            Err(error) => {
                return Err(error);
            },
        };
        if expression.get_primitive_type() != PrimitiveType::Bool {
            return Err(self.error(ParseErrorKind::ConditionNotBool, if_at));
        }
        let code = match self.parse_block() {
            Ok(node) => node,
            Err(error) => {
                return Err(error);
            },
        };
        let mut else_statement: Option<Box<AstNode>> = None;
        if !self.eof() && self.tokens[self.index].token_type == TokenType::Else {
            self.index += 1;
            let else_code = match self.parse_block() {
                Ok(node) => node,
                Err(error) => {
                    return Err(error);
                },
            };
            else_statement = Some(Box::new(else_code));
        }
        let node = AstNode::If(Box::new(expression), Box::new(code), else_statement);
        Ok(node)
    }

    /// `while condition block`
    fn parse_while(&mut self) -> (result: Result<AstNode, ParseError>)
        requires
            old(self).wf(),
        ensures
            final(self).tokens == old(self).tokens,
            final(self).wf(),
            result is Ok ==> final(self).scope.len() == old(self).scope.len(),
            statement_outcome(
                old(self).tokens(),
                while_statement(old(self).tokens(), old(self).state()),
                result,
                old(self).index as int,
                final(self).state(),
            ),
        decreases old(self).tokens.len() - old(self).index, 0int,
    {
        let while_at = match self.assert_consume(TokenType::While) {
            Ok(at) => at,
            Err(error) => {
                return Err(error);
            },
        };
        let expression = match self.parse_expression(OperatorPrecedence::Zero) {
            Ok(node) => node,
            Err(error) => {
                return Err(error);
            },
        };
        if expression.get_primitive_type() != PrimitiveType::Bool {
            return Err(self.error(ParseErrorKind::ConditionNotBool, while_at));
        }
        let code = match self.parse_block() {
            Ok(node) => node,
            Err(error) => {
                return Err(error);
            },
        };
        let node = AstNode::While(Box::new(expression), Box::new(code));
        Ok(node)
    }

    /// The parameters of a function, up to the closing parenthesis; each is
    /// declared in the innermost scope.
    #[verifier::loop_isolation(false)]
    fn parse_parameter_list(&mut self) -> (result: Result<Vec<PrimitiveType>, ParseError>)
        requires
            old(self).wf(),
        ensures
            final(self).tokens == old(self).tokens,
            final(self).wf(),
            result is Ok ==> final(self).scope.len() == old(self).scope.len(),
            match parameter_list(old(self).tokens(), old(self).state(), 0) {
                Ok((parameter_types, state)) => {
                    &&& result is Ok
                    &&& result->Ok_0@ == parameter_types
                    &&& final(self).state() == state
                    &&& old(self).index <= final(self).index <= final(self).tokens.len()
                },
                Err(failure) => {
                    &&& result is Err
                    &&& result->Err_0 == error_of(old(self).tokens(), failure)
                    &&& final(self).state() == state_after(failure)
                },
            },
    {
        let ghost tokens = self.tokens();
        let ghost goal = parameter_list(tokens, self.state(), 0);
        let mut parameter_types: Vec<PrimitiveType> = Vec::new();
        let mut param_index: i32 = 0;
        let mut done = false;
        while !done
            invariant
                self.wf(),
                self.tokens == old(self).tokens,
                self.scope.len() == old(self).scope.len(),
                old(self).index <= self.index <= self.tokens.len(),
                0 <= param_index <= self.scope[self.scope.len() - 1].last_offset,
                !done ==> goal == match parameter_list(tokens, self.state(), param_index as int) {
                    Ok((rest, end)) => Ok::<(Seq<PrimitiveType>, ParseState), ParseFailure>(
                        (parameter_types@ + rest, end),
                    ),
                    Err(failure) => Err(failure),
                },
                done ==> goal == Ok::<(Seq<PrimitiveType>, ParseState), ParseFailure>(
                    (parameter_types@, self.state()),
                ),
            decreases self.tokens.len() - self.index, if done { 0int } else { 1int },
        {
            let token_type = match self.peek(0) {
                Ok(token) => token.token_type,
                Err(error) => {
                    return Err(error);
                },
            };
            if token_type == TokenType::RightParen {
                done = true;
            } else {
                let name_at = match self.assert_consume(TokenType::Identifier) {
                    Ok(at) => at,
                    Err(error) => {
                        return Err(error);
                    },
                };
                let param_name = self.tokens[name_at].value.clone();
                match self.assert_consume(TokenType::Colon) {
                    Ok(_) => {},
                    Err(error) => {
                        return Err(error);
                    },
                }
                let param_type = match self.parse_variable_type() {
                    Ok(primitive_type) => primitive_type,
                    Err(error) => {
                        return Err(error);
                    },
                };
                let ghost before = parameter_types@;
                parameter_types.push(param_type);
                match self.add_to_scope_with_offset(
                    &param_name,
                    param_type,
                    Vec::new(),
                    SymbolType::FunctionParameter,
                    param_index,
                    name_at,
                ) {
                    Ok(_) => {},
                    Err(error) => {
                        return Err(error);
                    },
                }
                param_index += 1;
                let token_type = match self.peek(0) {
                    Ok(token) => token.token_type,
                    Err(error) => {
                        return Err(error);
                    },
                };
                if token_type == TokenType::RightParen {
                    proof {
                        assert(before + seq![param_type] =~= parameter_types@);
                    }
                    done = true;
                } else {
                    match self.assert_consume(TokenType::Comma) {
                        Ok(_) => {},
                        Err(error) => {
                            return Err(error);
                        },
                    }
                    proof {
                        match parameter_list(tokens, self.state(), param_index as int) {
                            Ok((rest, end)) => {
                                assert(before + (seq![param_type] + rest) =~= parameter_types@
                                    + rest);
                            },
                            Err(_) => {},
                        }
                    }
                }
            }
        }
        Ok(parameter_types)
    }

    /// `fn name ( parameters ) block`
    fn parse_function(&mut self) -> (result: Result<AstNode, ParseError>)
        requires
            old(self).wf(),
        ensures
            final(self).tokens == old(self).tokens,
            final(self).wf(),
            result is Ok ==> final(self).scope.len() == old(self).scope.len(),
            statement_outcome(
                old(self).tokens(),
                function(old(self).tokens(), old(self).state()),
                result,
                old(self).index as int,
                final(self).state(),
            ),
        decreases old(self).tokens.len() - old(self).index, 0int,
    {
        match self.assert_consume(TokenType::Function) {
            Ok(_) => {},
            Err(error) => {
                return Err(error);
            },
        }
        let name_at = match self.assert_consume(TokenType::Identifier) {
            Ok(at) => at,
            Err(error) => {
                return Err(error);
            },
        };
        let function_name = self.tokens[name_at].value.clone();
        match self.assert_consume(TokenType::LeftParen) {
            Ok(_) => {},
            Err(error) => {
                return Err(error);
            },
        }
        let parameter_types = match self.parse_parameter_list() {
            Ok(parameter_types) => parameter_types,
            Err(error) => {
                return Err(error);
            },
        };
        match self.assert_consume(TokenType::RightParen) {
            Ok(_) => {},
            Err(error) => {
                return Err(error);
            },
        }
        let code = match self.parse_block() {
            Ok(node) => node,
            Err(error) => {
                return Err(error);
            },
        };
        let symbol = match self.add_to_scope(
            &function_name,
            PrimitiveType::Void,
            parameter_types,
            SymbolType::Function,
            name_at,
        ) {
            Ok(symbol) => symbol,
            Err(error) => {
                return Err(error);
            },
        };
        let node = AstNode::Function(symbol, Box::new(code));
        Ok(node)
    }

    /// One statement, told apart by its first token and, after a name, by
    /// its second.
    fn parse_single(&mut self) -> (result: Result<AstNode, ParseError>)
        requires
            old(self).wf(),
        ensures
            final(self).tokens == old(self).tokens,
            final(self).wf(),
            result is Ok ==> final(self).scope.len() == old(self).scope.len(),
            statement_outcome(
                old(self).tokens(),
                statement(old(self).tokens(), old(self).state()),
                result,
                old(self).index as int,
                final(self).state(),
            ),
        decreases old(self).tokens.len() - old(self).index, 1int,
    {
        let token_type = match self.peek(0) {
            Ok(token) => token.token_type,
            Err(error) => {
                return Err(error);
            },
        };
        match token_type {
            TokenType::LeftBrace => self.parse_block(),
            TokenType::If => self.parse_if(),
            TokenType::While => self.parse_while(),
            TokenType::Var => self.parse_variable_declaration(),
            TokenType::Function => self.parse_function(),
            TokenType::Identifier => {
                let next_token_type = match self.peek(1) {
                    Ok(token) => token.token_type,
                    Err(error) => {
                        self.index += 1;
                        return Err(error);
                    },
                };
                match next_token_type {
                    TokenType::LeftParen => self.parse_functioncall(),
                    TokenType::EqualSign => self.parse_assignment(),
                    _ => Err(self.error(ParseErrorKind::UnexpectedToken, self.index + 1)),
                }
            },
            _ => Err(self.error(ParseErrorKind::UnexpectedToken, self.index)),
        }
    }

    /// Parses the tokens from where the parser stands to their end: the
    /// statements of the program, as one block. On success the parser
    /// stands at the end of its tokens, the tree is well typed, and every
    /// call in it was checked where it was read: its name was bound in the
    /// scopes open there, and its arguments fit the parameters. On failure
    /// the parser stands at the offending token, with the scopes that were
    /// open when it was found.
    pub fn parse(&mut self) -> (result: Result<AstNode, ParseError>)
        requires
            old(self).wf(),
        ensures
            final(self).tokens() == old(self).tokens(),
            final(self).wf(),
            match program(old(self).tokens(), old(self).state()) {
                Ok((view, state)) => {
                    &&& result is Ok
                    &&& result->Ok_0@ == view
                    &&& result->Ok_0@.well_typed()
                    &&& calls_checked(
                        old(self).tokens(),
                        program_sites(old(self).tokens(), old(self).state()),
                        result->Ok_0@,
                    )
                    &&& final(self).state() == state
                    &&& state.index == old(self).tokens().len()
                },
                Err(failure) => {
                    &&& result is Err
                    &&& result->Err_0 == error_of(old(self).tokens(), failure)
                    &&& final(self).state() == state_after(failure)
                },
            },
    {
        let ghost tokens = self.tokens();
        let ghost goal = program_statements(tokens, self.state());
        let mut nodes: Vec<AstNode> = Vec::new();
        proof {
            lemma_program_well_typed(tokens, self.state());
            lemma_program_calls(tokens, self.state());
        }
        while !self.eof()
            invariant
                self.wf(),
                self.tokens == old(self).tokens,
                tokens == self.tokens(),
                goal == program_statements(tokens, old(self).state()),
                goal == match program_statements(tokens, self.state()) {
                    Ok((rest, end)) => Ok::<(Seq<AstView>, ParseState), ParseFailure>(
                        (views_of(nodes@) + rest, end),
                    ),
                    Err(failure) => Err(failure),
                },
            decreases self.tokens.len() - self.index,
        {
            let node = match self.parse_single() {
                Ok(node) => node,
                Err(error) => {
                    return Err(error);
                },
            };
            let ghost before = nodes@;
            let ghost child = node@;
            nodes.push(node);
            proof {
                match program_statements(tokens, self.state()) {
                    Ok((rest, end)) => {
                        assert(views_of(before) + (seq![child] + rest) =~= views_of(nodes@) + rest);
                    },
                    Err(_) => {},
                }
            }
        }
        proof {
            AstNode::lemma_model_of_block(nodes);
        }
        Ok(AstNode::Block(nodes))
    }
}

} // verus!
