use compiler::ast::{AstNode, BinaryOperationType};
use compiler::lexer::{Lexer, Token, TokenType};
use compiler::parser::{OperatorPrecedence, ParseError, ParseErrorKind, Parser};
use compiler::scope::{Symbol, SymbolType};
use compiler::types::{PrimitiveType, PrimitiveValue};

fn parse(source: &str) -> Result<AstNode, ParseError> {
    let tokens = Lexer::new(source).tokenize().expect("the text has tokens only");
    Parser::new(tokens).parse()
}

fn statements(source: &str) -> Vec<AstNode> {
    match parse(source).expect("the program is well formed") {
        AstNode::Block(children) => children,
        other => panic!("a program is a block, not {:?}", other),
    }
}

fn failure(source: &str) -> (ParseErrorKind, usize, usize) {
    let error = parse(source).expect_err("the program is not well formed");
    (error.kind, error.line, error.col)
}

fn variable(name: &str, primitive_type: PrimitiveType, offset: i32) -> Symbol {
    Symbol {
        symbol_type: SymbolType::Variable,
        primitive_type,
        parameter_types: Vec::new(),
        name: name.to_string(),
        offset,
    }
}

fn literal(primitive_type: PrimitiveType, value: u64) -> AstNode {
    AstNode::NumericLiteral(primitive_type, PrimitiveValue { bits: value })
}

fn binary(operation: BinaryOperationType, left: AstNode, right: AstNode) -> AstNode {
    AstNode::BinaryOperation(operation, Box::new(left), Box::new(right))
}

fn widen(primitive_type: PrimitiveType, node: AstNode) -> AstNode {
    AstNode::Widen(primitive_type, Box::new(node))
}

fn assigned(source: &str) -> AstNode {
    let mut children = statements(source);
    match children.pop().expect("the program has statements") {
        AstNode::Assignment(_, value) => *value,
        other => panic!("the last statement is no assignment but {:?}", other),
    }
}

#[test]
fn an_empty_program_is_an_empty_block() {
    assert_eq!(parse(""), Ok(AstNode::Block(Vec::new())));
}

#[test]
fn declaration_and_sum() {
    let x = variable("x", PrimitiveType::UInt32, 4);
    assert_eq!(
        statements("var x: u32; x = 3 + 4;"),
        vec![
            AstNode::VariableDeclaration(x.clone()),
            AstNode::Assignment(
                x,
                Box::new(widen(
                    PrimitiveType::UInt32,
                    binary(
                        BinaryOperationType::Add,
                        literal(PrimitiveType::UInt8, 3),
                        literal(PrimitiveType::UInt8, 4),
                    ),
                )),
            ),
        ]
    );
}

#[test]
fn literal_types_follow_the_value() {
    let source = |text: &str| format!("var x: u64; x = {};", text);
    assert_eq!(
        assigned(&source("255")),
        widen(PrimitiveType::UInt64, literal(PrimitiveType::UInt8, 255))
    );
    assert_eq!(
        assigned(&source("256")),
        widen(PrimitiveType::UInt64, literal(PrimitiveType::UInt16, 256))
    );
    assert_eq!(
        assigned(&source("65535")),
        widen(PrimitiveType::UInt64, literal(PrimitiveType::UInt16, 65535))
    );
    assert_eq!(
        assigned(&source("65536")),
        widen(PrimitiveType::UInt64, literal(PrimitiveType::UInt32, 65536))
    );
    assert_eq!(
        assigned(&source("4294967295")),
        widen(PrimitiveType::UInt64, literal(PrimitiveType::UInt32, 4294967295))
    );
    assert_eq!(assigned(&source("4294967296")), literal(PrimitiveType::UInt64, 4294967296));
    assert_eq!(
        assigned(&source("18446744073709551615")),
        literal(PrimitiveType::UInt64, u64::MAX)
    );
}

#[test]
fn a_literal_beyond_64_bits_is_refused() {
    assert_eq!(
        failure("var x: u64;\nx = 18446744073709551616;"),
        (ParseErrorKind::InvalidLiteral, 2, 5)
    );
}

#[test]
fn multiplication_binds_tighter_than_addition() {
    let u8_literal = |value| literal(PrimitiveType::UInt8, value);
    assert_eq!(
        assigned("var x: u8; x = 1 + 2 * 3;"),
        binary(
            BinaryOperationType::Add,
            u8_literal(1),
            binary(BinaryOperationType::Multiply, u8_literal(2), u8_literal(3)),
        )
    );
    assert_eq!(
        assigned("var x: u8; x = 1 * 2 + 3;"),
        binary(
            BinaryOperationType::Add,
            binary(BinaryOperationType::Multiply, u8_literal(1), u8_literal(2)),
            u8_literal(3),
        )
    );
}

#[test]
fn operators_of_equal_strength_group_to_the_left() {
    let u8_literal = |value| literal(PrimitiveType::UInt8, value);
    assert_eq!(
        assigned("var x: u8; x = 8 - 4 - 2;"),
        binary(
            BinaryOperationType::Subtract,
            binary(BinaryOperationType::Subtract, u8_literal(8), u8_literal(4)),
            u8_literal(2),
        )
    );
    assert_eq!(
        assigned("var x: u8; x = 8 / 4 * 2;"),
        binary(
            BinaryOperationType::Multiply,
            binary(BinaryOperationType::Divide, u8_literal(8), u8_literal(4)),
            u8_literal(2),
        )
    );
}

#[test]
fn parentheses_group() {
    let u8_literal = |value| literal(PrimitiveType::UInt8, value);
    assert_eq!(
        assigned("var x: u8; x = (1 + 2) * 3;"),
        binary(
            BinaryOperationType::Multiply,
            binary(BinaryOperationType::Add, u8_literal(1), u8_literal(2)),
            u8_literal(3),
        )
    );
}

#[test]
fn relational_operators_bind_tighter_than_equality() {
    let tree = match statements("if 1 < 2 == 3 >= 4 { }").pop().unwrap() {
        AstNode::If(condition, _, None) => *condition,
        other => panic!("not an if: {:?}", other),
    };
    let u8_literal = |value| literal(PrimitiveType::UInt8, value);
    assert_eq!(
        tree,
        binary(
            BinaryOperationType::Equals,
            binary(BinaryOperationType::LessThan, u8_literal(1), u8_literal(2)),
            binary(BinaryOperationType::GreaterThanOrEqual, u8_literal(3), u8_literal(4)),
        )
    );
}

#[test]
fn the_narrower_operand_is_widened() {
    assert_eq!(
        assigned("var x: u16; x = 1 + 256;"),
        binary(
            BinaryOperationType::Add,
            widen(PrimitiveType::UInt16, literal(PrimitiveType::UInt8, 1)),
            literal(PrimitiveType::UInt16, 256),
        )
    );
    assert_eq!(
        assigned("var x: u16; x = 256 + 1;"),
        binary(
            BinaryOperationType::Add,
            literal(PrimitiveType::UInt16, 256),
            widen(PrimitiveType::UInt16, literal(PrimitiveType::UInt8, 1)),
        )
    );
}

#[test]
fn a_comparison_is_a_bool() {
    let mut children = statements("var x: u32; if (x == 0) { x = 1; } else { x = 2; }");
    let x = variable("x", PrimitiveType::UInt32, 4);
    let assign = |value| {
        AstNode::Block(vec![AstNode::Assignment(
            x.clone(),
            Box::new(widen(PrimitiveType::UInt32, literal(PrimitiveType::UInt8, value))),
        )])
    };
    match children.pop().unwrap() {
        AstNode::If(condition, body, else_body) => {
            assert_eq!(condition.get_primitive_type(), PrimitiveType::Bool);
            assert_eq!(
                *condition,
                binary(
                    BinaryOperationType::Equals,
                    AstNode::Identifier(x.clone()),
                    widen(PrimitiveType::UInt32, literal(PrimitiveType::UInt8, 0)),
                )
            );
            assert_eq!(*body, assign(1));
            assert_eq!(else_body, Some(Box::new(assign(2))));
        }
        other => panic!("not an if: {:?}", other),
    }
}

#[test]
fn an_if_may_end_the_program() {
    let children = statements("var x: u8; if x == 1 { }");
    assert!(matches!(&children[1], AstNode::If(_, _, None)));
}

#[test]
fn a_condition_must_be_a_bool() {
    assert_eq!(failure("var x: u8;\nif x + 1 { }"), (ParseErrorKind::ConditionNotBool, 2, 1));
    assert_eq!(failure("  while 1 { }"), (ParseErrorKind::ConditionNotBool, 1, 3));
}

#[test]
fn a_while_loop() {
    let x = variable("x", PrimitiveType::UInt8, 1);
    assert_eq!(
        statements("var x: u8; while x != 0 { x = x - 1; }").pop().unwrap(),
        AstNode::While(
            Box::new(binary(
                BinaryOperationType::NotEquals,
                AstNode::Identifier(x.clone()),
                literal(PrimitiveType::UInt8, 0),
            )),
            Box::new(AstNode::Block(vec![AstNode::Assignment(
                x.clone(),
                Box::new(binary(
                    BinaryOperationType::Subtract,
                    AstNode::Identifier(x),
                    literal(PrimitiveType::UInt8, 1),
                )),
            )])),
        )
    );
}

#[test]
fn the_runtime_functions_are_declared() {
    assert_eq!(
        statements("print8(1); print16(1); print32(1); print64(1); printsum(1, 2); printbool(1 == 1);")
            .len(),
        6
    );
    assert_eq!(
        statements("printsum(1, 2);"),
        vec![AstNode::FunctionCall(
            "printsum".to_string(),
            vec![literal(PrimitiveType::UInt8, 1), literal(PrimitiveType::UInt8, 2)],
        )]
    );
}

#[test]
fn an_undeclared_function_is_refused() {
    assert_eq!(failure("var x: u8;\n  foo(x);"), (ParseErrorKind::UnknownIdentifier, 2, 3));
}

#[test]
fn an_argument_must_fit_its_parameter() {
    assert_eq!(
        failure("var y: u64;\nprint8(y);"),
        (ParseErrorKind::IncompatibleTypes, 2, 8)
    );
    assert_eq!(failure("print8(256);"), (ParseErrorKind::IncompatibleTypes, 1, 8));
    assert_eq!(failure("printbool(1);"), (ParseErrorKind::IncompatibleTypes, 1, 11));
    assert_eq!(failure("print8(1 == 1);"), (ParseErrorKind::IncompatibleTypes, 1, 8));
    assert_eq!(failure("printsum(1, 4294967296);"), (ParseErrorKind::IncompatibleTypes, 1, 13));
}

#[test]
fn a_call_passes_no_more_arguments_than_parameters() {
    assert_eq!(failure("print8(1, 2);"), (ParseErrorKind::TooManyArguments, 1, 11));
    assert_eq!(
        statements("printsum(1);"),
        vec![AstNode::FunctionCall("printsum".to_string(), vec![literal(PrimitiveType::UInt8, 1)])]
    );
}

#[test]
fn an_unknown_name_is_refused() {
    assert_eq!(failure("x = 1;"), (ParseErrorKind::UnknownIdentifier, 1, 1));
    assert_eq!(failure("var x: u8; x = y;"), (ParseErrorKind::UnknownIdentifier, 1, 16));
}

#[test]
fn a_second_declaration_in_the_same_block_is_refused() {
    assert_eq!(failure("var x: u8;\nvar x: u8;"), (ParseErrorKind::Redeclaration, 2, 5));
    assert_eq!(failure("{ var x: u8; var x: u32; }"), (ParseErrorKind::Redeclaration, 1, 18));
    assert_eq!(failure("var print8: u8;"), (ParseErrorKind::Redeclaration, 1, 5));
}

#[test]
fn a_nested_block_may_shadow_and_the_outer_binding_stays() {
    let children = statements("var x: u32; { var x: u8; x = 1; } x = 2;");
    let outer = variable("x", PrimitiveType::UInt32, 4);
    let inner = variable("x", PrimitiveType::UInt8, 1);
    assert_eq!(
        children,
        vec![
            AstNode::VariableDeclaration(outer.clone()),
            AstNode::Block(vec![
                AstNode::VariableDeclaration(inner.clone()),
                AstNode::Assignment(inner, Box::new(literal(PrimitiveType::UInt8, 1))),
            ]),
            AstNode::Assignment(
                outer,
                Box::new(widen(PrimitiveType::UInt32, literal(PrimitiveType::UInt8, 2))),
            ),
        ]
    );
}

#[test]
fn a_name_of_a_closed_block_is_gone() {
    assert_eq!(failure("{ var y: u8; } y = 1;"), (ParseErrorKind::UnknownIdentifier, 1, 16));
}

#[test]
fn a_function_declares_its_parameters_by_ordinal() {
    let children = statements("fn add(a: u8, b: u32) { print8(a); print32(b); } add(1, 2);");
    let parameter = |name: &str, primitive_type, offset| Symbol {
        symbol_type: SymbolType::FunctionParameter,
        primitive_type,
        parameter_types: Vec::new(),
        name: name.to_string(),
        offset,
    };
    let function = Symbol {
        symbol_type: SymbolType::Function,
        primitive_type: PrimitiveType::Void,
        parameter_types: vec![PrimitiveType::UInt8, PrimitiveType::UInt32],
        name: "add".to_string(),
        offset: 5,
    };
    assert_eq!(
        children,
        vec![
            AstNode::Function(
                function,
                Box::new(AstNode::Block(vec![
                    AstNode::FunctionCall(
                        "print8".to_string(),
                        vec![AstNode::Identifier(parameter("a", PrimitiveType::UInt8, 0))],
                    ),
                    AstNode::FunctionCall(
                        "print32".to_string(),
                        vec![AstNode::Identifier(parameter("b", PrimitiveType::UInt32, 1))],
                    ),
                ])),
            ),
            AstNode::FunctionCall(
                "add".to_string(),
                vec![literal(PrimitiveType::UInt8, 1), literal(PrimitiveType::UInt8, 2)],
            ),
        ]
    );
}

#[test]
fn a_function_is_unknown_inside_its_own_body() {
    assert_eq!(failure("fn f() { f(); }"), (ParseErrorKind::UnknownIdentifier, 1, 10));
}

#[test]
fn operands_must_go_together() {
    assert_eq!(
        failure("var a: i8; var b: u8; a = a + b;"),
        (ParseErrorKind::IncompatibleTypes, 1, 29)
    );
    assert_eq!(
        failure("var b: u8; if (b == 1) == b { }"),
        (ParseErrorKind::IncompatibleTypes, 1, 24)
    );
}

#[test]
fn tokens_out_of_place_are_refused() {
    assert_eq!(failure("var x u8;"), (ParseErrorKind::UnexpectedToken, 1, 7));
    assert_eq!(failure("var x: y;"), (ParseErrorKind::UnexpectedToken, 1, 8));
    assert_eq!(failure("x + 1;"), (ParseErrorKind::UnexpectedToken, 1, 3));
    assert_eq!(failure("+"), (ParseErrorKind::UnexpectedToken, 1, 1));
    assert_eq!(failure("var x: u8; x = 1 }"), (ParseErrorKind::UnexpectedToken, 1, 18));
    assert_eq!(failure("var x: u8; x = 1 )"), (ParseErrorKind::UnexpectedToken, 1, 18));
    assert_eq!(failure("var x: u8; x = ;"), (ParseErrorKind::UnexpectedToken, 1, 16));
    assert_eq!(failure("print8(1 2);"), (ParseErrorKind::UnexpectedToken, 1, 10));
    assert_eq!(failure("var x: u8; x = 1 ! 2;"), (ParseErrorKind::UnexpectedToken, 1, 18));
}

#[test]
fn tokens_that_end_too_early_are_reported_without_a_place() {
    assert_eq!(failure("var x: u8; x = 1"), (ParseErrorKind::UnexpectedEndOfInput, 0, 0));
    assert_eq!(failure("var"), (ParseErrorKind::UnexpectedEndOfInput, 0, 0));
    assert_eq!(failure("{ var x: u8;"), (ParseErrorKind::UnexpectedEndOfInput, 0, 0));
    assert_eq!(failure("x"), (ParseErrorKind::UnexpectedEndOfInput, 0, 0));
    assert_eq!(failure("print8(1"), (ParseErrorKind::UnexpectedEndOfInput, 0, 0));
}

#[test]
fn a_type_token_must_name_a_type() {
    let token = |token_type, value: &str, col| Token {
        token_type,
        value: value.to_string(),
        col,
        line: 1,
    };
    let tokens = vec![
        token(TokenType::Var, "var", 1),
        token(TokenType::Identifier, "x", 5),
        token(TokenType::Colon, ":", 6),
        token(TokenType::Type, "u7", 8),
        token(TokenType::SemiColon, ";", 10),
    ];
    let error = Parser::new(tokens).parse().unwrap_err();
    assert_eq!(error, ParseError { kind: ParseErrorKind::UnknownType, line: 1, col: 8 });
}

#[test]
fn a_literal_may_carry_a_plus_sign() {
    let token = |token_type, value: &str| Token {
        token_type,
        value: value.to_string(),
        col: 1,
        line: 1,
    };
    let tokens = vec![
        token(TokenType::Identifier, "print8"),
        token(TokenType::LeftParen, "("),
        token(TokenType::IntLiteral, "+7"),
        token(TokenType::RightParen, ")"),
        token(TokenType::SemiColon, ";"),
    ];
    assert_eq!(
        Parser::new(tokens).parse(),
        Ok(AstNode::Block(vec![AstNode::FunctionCall(
            "print8".to_string(),
            vec![literal(PrimitiveType::UInt8, 7)],
        )]))
    );
}

#[test]
fn precedence_levels_are_ordered() {
    assert!(OperatorPrecedence::MulDiv > OperatorPrecedence::AddSubtract);
    assert!(OperatorPrecedence::AddSubtract > OperatorPrecedence::LessGreaterThan);
    assert!(OperatorPrecedence::LessGreaterThan > OperatorPrecedence::EqualsNotEquals);
    assert!(OperatorPrecedence::EqualsNotEquals > OperatorPrecedence::Zero);
    assert!(!(OperatorPrecedence::Zero > OperatorPrecedence::Zero));
    assert!(OperatorPrecedence::Zero <= OperatorPrecedence::Zero);
    assert!(OperatorPrecedence::Zero < OperatorPrecedence::MulDiv);
    assert_eq!(OperatorPrecedence::AddSubtract.value(), 150);
    assert_eq!(OperatorPrecedence::LessGreaterThan.value(), 100);
    assert_eq!(OperatorPrecedence::EqualsNotEquals.value(), 50);
    assert_eq!(OperatorPrecedence::MulDiv.value(), 200);
    assert_eq!(OperatorPrecedence::Zero.value(), 0);
}

#[test]
fn a_trailing_comma_is_accepted_in_lists() {
    assert_eq!(statements("printsum(1, 2,);").len(), 1);
    assert_eq!(statements("fn f(a: u8,) { }").len(), 1);
}

#[test]
fn the_type_of_a_node() {
    assert_eq!(literal(PrimitiveType::UInt16, 300).get_primitive_type(), PrimitiveType::UInt16);
    assert_eq!(
        widen(PrimitiveType::UInt64, literal(PrimitiveType::UInt8, 1)).get_primitive_type(),
        PrimitiveType::UInt64
    );
    assert_eq!(
        binary(
            BinaryOperationType::Multiply,
            literal(PrimitiveType::UInt32, 70000),
            literal(PrimitiveType::UInt8, 1),
        )
        .get_primitive_type(),
        PrimitiveType::UInt32
    );
    assert_eq!(
        binary(
            BinaryOperationType::LessThanOrEqual,
            literal(PrimitiveType::UInt32, 70000),
            literal(PrimitiveType::UInt8, 1),
        )
        .get_primitive_type(),
        PrimitiveType::Bool
    );
    assert_eq!(
        AstNode::Identifier(variable("x", PrimitiveType::Int16, 2)).get_primitive_type(),
        PrimitiveType::Int16
    );
    assert_eq!(
        AstNode::UnaryOperation(
            compiler::ast::UnaryOperationType::Negate,
            Box::new(literal(PrimitiveType::UInt8, 1)),
        )
        .get_primitive_type(),
        PrimitiveType::Int8
    );
    assert_eq!(AstNode::Block(Vec::new()).get_primitive_type(), PrimitiveType::Unknown);
}

#[test]
fn a_failed_parse_leaves_the_parser_at_the_offending_token() {
    let tokens = Lexer::new("var x: u8;\nvar x: u8;\nx = 1;").tokenize().unwrap();
    let mut parser = Parser::new(tokens);
    assert_eq!(
        parser.parse(),
        Err(ParseError { kind: ParseErrorKind::Redeclaration, line: 2, col: 5 })
    );
    assert_eq!(
        parser.parse(),
        Err(ParseError { kind: ParseErrorKind::UnexpectedToken, line: 2, col: 6 })
    );

    let tokens = Lexer::new("print8(1); foo(); print8(2);").tokenize().unwrap();
    let mut parser = Parser::new(tokens);
    let first = parser.parse();
    assert_eq!(first, Err(ParseError { kind: ParseErrorKind::UnknownIdentifier, line: 1, col: 12 }));
    assert_eq!(parser.parse(), first);
}

#[test]
fn a_failure_in_an_expression_leaves_the_parser_at_its_operand() {
    let tokens = Lexer::new("{ var y: u8; y = z; y = 1; }").tokenize().unwrap();
    let mut parser = Parser::new(tokens);
    assert_eq!(
        parser.parse(),
        Err(ParseError { kind: ParseErrorKind::UnknownIdentifier, line: 1, col: 18 })
    );
    assert_eq!(
        parser.parse(),
        Err(ParseError { kind: ParseErrorKind::UnexpectedToken, line: 1, col: 19 })
    );
}
