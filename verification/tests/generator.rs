use compiler::ast::{AstNode, BinaryOperationType};
use compiler::{compile, CompileError};
use compiler::generator::{
    gen, gen_expression, gen_node, size_to_instruction_index, CodeGenerator, GenError, Register,
};
use compiler::lexer::Lexer;
use compiler::parser::{ParseErrorKind, Parser};
use compiler::scope::{Symbol, SymbolType};
use compiler::types::{PrimitiveType, PrimitiveValue};
use compiler::x86_generator::X86CodeGenerator;

const HEADER: &str = "\t.globl\tmain\n\t.type\tmain, @function\n";

fn tree(source: &str) -> AstNode {
    let tokens = Lexer::new(source).tokenize().expect("the text has tokens only");
    Parser::new(tokens).parse().expect("the program is well formed")
}

fn assembly(source: &str) -> String {
    X86CodeGenerator::generate(&tree(source)).expect("the program has code")
}

fn body(source: &str) -> String {
    let text = assembly(source);
    assert!(text.starts_with(HEADER));
    text[HEADER.len()..].to_string()
}

fn generation_error(source: &str) -> GenError {
    X86CodeGenerator::generate(&tree(source)).expect_err("the program has no code")
}

fn symbol(symbol_type: SymbolType, primitive_type: PrimitiveType, offset: i32) -> Symbol {
    Symbol {
        symbol_type,
        primitive_type,
        parameter_types: Vec::new(),
        name: "s".to_string(),
        offset,
    }
}

fn literal(primitive_type: PrimitiveType, value: u64) -> AstNode {
    AstNode::NumericLiteral(primitive_type, PrimitiveValue { bits: value })
}

#[test]
fn an_empty_program_is_its_header() {
    assert_eq!(assembly(""), HEADER);
    assert_eq!(assembly("var x: u8;"), HEADER);
}

#[test]
fn a_sum_is_computed_and_stored() {
    assert_eq!(
        assembly("var x: u32; x = 3 + 4;"),
        "\t.globl\tmain\n\
         \t.type\tmain, @function\n\
         \tmovq\t$3, %r8\n\
         \tmovq\t$4, %r9\n\
         \taddb\t%r9b, %r8b\n\
         \tmovzx\t%r8b, %r9d\n\
         \tsubq\t$4, %rsp\n\
         \tmovl\t%r9d, -4(%rbp)\n"
    );
}

#[test]
fn an_if_with_else_has_two_labels_and_one_zero_test() {
    let text = assembly("var x: u32; if (x == 0) { x = 1; } else { x = 2; }");
    assert_eq!(
        text,
        "\t.globl\tmain\n\
         \t.type\tmain, @function\n\
         \tmovl\t-4(%rbp), %r8d\n\
         \tmovq\t$0, %r9\n\
         \tmovzx\t%r9b, %r10d\n\
         \tcmpl\t%r10d, %r8d\n\
         \tsete\t%r10b\n\
         \tandl\t$255, %r10d\n\
         \tcmpl\t$0, %r10d\n\
         \tjz\t\tL0\n\
         \tmovq\t$1, %r8\n\
         \tmovzx\t%r8b, %r9d\n\
         \tsubq\t$4, %rsp\n\
         \tmovl\t%r9d, -4(%rbp)\n\
         \tjmp L1\n\
         L0:\n\
         \tmovq\t$2, %r8\n\
         \tmovzx\t%r8b, %r9d\n\
         \tsubq\t$4, %rsp\n\
         \tmovl\t%r9d, -4(%rbp)\n\
         L1:\n"
    );
    let labels = text.lines().filter(|line| line.starts_with('L') && line.ends_with(':')).count();
    assert_eq!(labels, 2);
    assert_eq!(text.lines().filter(|line| line.starts_with("\tjz")).count(), 1);
}

#[test]
fn an_if_without_else_jumps_to_its_end() {
    assert_eq!(
        body("var x: u8; if x < 9 { }"),
        "\tmovb\t-1(%rbp), %r8b\n\
         \tmovq\t$9, %r9\n\
         \tcmpb\t%r9b, %r8b\n\
         \tsetl\t%r9b\n\
         \tandb\t$255, %r9b\n\
         \tcmpb\t$0, %r9b\n\
         \tjz\t\tL1\n\
         \tjmp L1\n\
         L1:\n"
    );
}

#[test]
fn a_while_loop_jumps_back_to_its_start() {
    assert_eq!(
        body("var x: u16; while x != 0 { x = x - 1; }"),
        "L0:\n\
         \tmovw\t-2(%rbp), %r8w\n\
         \tmovq\t$0, %r9\n\
         \tmovzx\t%r9b, %r10w\n\
         \tcmpw\t%r10w, %r8w\n\
         \tsetne\t%r10b\n\
         \tandw\t$255, %r10w\n\
         \tcmpw\t$0, %r10w\n\
         \tjz\t\tL1\n\
         \tmovw\t-2(%rbp), %r8w\n\
         \tmovq\t$1, %r9\n\
         \tmovzx\t%r9b, %r11w\n\
         \tsubw\t%r11w, %r8w\n\
         \tsubq\t$2, %rsp\n\
         \tmovw\t%r8w, -2(%rbp)\n\
         \tjmp\t\tL0\n\
         L1:\n"
    );
}

#[test]
fn labels_count_up_over_the_program() {
    let text = body("var x: u8; if x == 1 { } while x == 2 { if x == 3 { } }");
    let labels: Vec<&str> =
        text.lines().filter(|line| line.starts_with('L') && line.ends_with(':')).collect();
    assert_eq!(labels, vec!["L1:", "L2:", "L5:", "L3:"]);
}

#[test]
fn multiplication_and_division_go_through_the_accumulator() {
    assert_eq!(
        body("var x: u64; x = 4294967296 * 4294967297;"),
        "\tmovq\t$4294967296, %r8\n\
         \tmovq\t$4294967297, %r9\n\
         \tmovq\t%r9, %rax\n\
         \tmulq\t%r8\n\
         \tmovq\t%rax, %r8\n\
         \tsubq\t$8, %rsp\n\
         \tmovq\t%r8, -8(%rbp)\n"
    );
    assert_eq!(
        body("var x: u8; x = 9 / 3;"),
        "\tmovq\t$9, %r8\n\
         \tmovq\t$3, %r9\n\
         \tmovb\t%r8b, %al\n\
         \tcltd\n\
         \tdivb\t%r9b\n\
         \tmovb\t%al, %r8b\n\
         \tsubq\t$1, %rsp\n\
         \tmovb\t%r8b, -1(%rbp)\n"
    );
}

#[test]
fn every_comparison_has_its_set_instruction() {
    for (operator, instruction) in [
        ("==", "sete"),
        ("!=", "setne"),
        ("<", "setl"),
        ("<=", "setle"),
        (">", "setg"),
        (">=", "setge"),
    ] {
        let text = body(&format!("printbool(1 {} 2);", operator));
        assert_eq!(
            text,
            format!(
                "\tmovq\t$1, %r8\n\
                 \tmovq\t$2, %r9\n\
                 \tcmpb\t%r9b, %r8b\n\
                 \t{}\t%r9b\n\
                 \tandb\t$255, %r9b\n\
                 \txor\t\t%rdi,%rdi\n\
                 \tmovb\t%r9b, %dil\n\
                 \tcall\tprintbool\n",
                instruction
            )
        );
    }
}

#[test]
fn a_literal_is_written_as_a_signed_number() {
    assert_eq!(
        body("print64(18446744073709551615);"),
        "\tmovq\t$-1, %r8\n\
         \txor\t\t%rdi,%rdi\n\
         \tmovq\t%r8, %rdi\n\
         \tcall\tprint64\n"
    );
    assert_eq!(
        body("print64(9223372036854775808);"),
        "\tmovq\t$-9223372036854775808, %r8\n\
         \txor\t\t%rdi,%rdi\n\
         \tmovq\t%r8, %rdi\n\
         \tcall\tprint64\n"
    );
    assert_eq!(
        body("print64(9223372036854775807);"),
        "\tmovq\t$9223372036854775807, %r8\n\
         \txor\t\t%rdi,%rdi\n\
         \tmovq\t%r8, %rdi\n\
         \tcall\tprint64\n"
    );
}

#[test]
fn a_call_passes_two_arguments_in_registers() {
    assert_eq!(
        body("printsum(70000, 80000);"),
        "\tmovq\t$70000, %r8\n\
         \txor\t\t%rdi,%rdi\n\
         \tmovl\t%r8d, %edi\n\
         \tmovq\t$80000, %r9\n\
         \txor\t\t%rsi,%rsi\n\
         \tmovl\t%r9d, %esi\n\
         \tcall\tprintsum\n"
    );
}

#[test]
fn a_function_has_prologue_and_epilogue() {
    assert_eq!(
        body("fn show(a: u8, b: u16) { print8(a); print16(b); }"),
        "show:\n\
         \tpush\t%rbp\n\
         \tmov\t\t%rsp, %rbp\n\
         \tmovb\t%dil, %r8b\n\
         \txor\t\t%rdi,%rdi\n\
         \tmovb\t%r8b, %dil\n\
         \tcall\tprint8\n\
         \tmovw\t%si, %r8w\n\
         \txor\t\t%rdi,%rdi\n\
         \tmovw\t%r8w, %di\n\
         \tcall\tprint16\n\
         \tmov\t\t%rbp, %rsp\n\
         \tpop\t\t%rbp\n\
         \tret\n"
    );
}

#[test]
fn the_same_tree_gives_the_same_text() {
    let program = tree(
        "var x: u32; fn f(a: u8) { print8(a); } \
         while x < 10 { if x == 3 { f(1); } else { x = x + x; } }",
    );
    let first = X86CodeGenerator::generate(&program).unwrap();
    let second = X86CodeGenerator::generate(&program).unwrap();
    assert_eq!(first, second);
    let mut generator = X86CodeGenerator::new();
    gen(&mut generator, &program).unwrap();
    assert_eq!(generator.output(), first);
    assert!(generator.do_post_check());
}

#[test]
fn the_pool_has_four_registers() {
    assert_eq!(
        body("var x: u8; x = 1 + (2 + (3 + 4));"),
        "\tmovq\t$1, %r8\n\
         \tmovq\t$2, %r9\n\
         \tmovq\t$3, %r10\n\
         \tmovq\t$4, %r11\n\
         \taddb\t%r11b, %r10b\n\
         \taddb\t%r10b, %r9b\n\
         \taddb\t%r9b, %r8b\n\
         \tsubq\t$1, %rsp\n\
         \tmovb\t%r8b, -1(%rbp)\n"
    );
    assert_eq!(
        generation_error("var x: u8; x = 1 + (2 + (3 + (4 + 5)));"),
        GenError::OutOfRegisters
    );
}

#[test]
fn registers_are_handed_out_first_fit() {
    let mut generator = X86CodeGenerator::new();
    let first = generator.get_register(8).unwrap();
    let second = generator.get_register(64).unwrap();
    assert_eq!(first, Register { size: 8, index: 0 });
    assert_eq!(second, Register { size: 64, index: 1 });
    generator.free_register(first);
    assert_eq!(generator.get_register(16), Ok(Register { size: 16, index: 0 }));
    assert_eq!(generator.get_register(16), Ok(Register { size: 16, index: 2 }));
    assert_eq!(generator.get_register(16), Ok(Register { size: 16, index: 3 }));
    assert!(!generator.do_post_check());
    assert_eq!(generator.get_register(16), Err(GenError::OutOfRegisters));
    assert_eq!(generator.output(), "");
}

#[test]
fn labels_are_numbered_from_zero() {
    let mut generator = X86CodeGenerator::new();
    assert_eq!(generator.get_label(), Ok(0));
    assert_eq!(generator.get_label(), Ok(1));
    assert_eq!(generator.get_label(), Ok(2));
    assert_eq!(generator.max_arguments(), 2);
}

#[test]
fn write_emits_one_line() {
    let mut generator = X86CodeGenerator::new();
    generator.write("\tnop");
    generator.write("");
    assert_eq!(generator.output(), "\tnop\n\n");
    assert_eq!(generator.into_output(), "\tnop\n\n");
}

#[test]
fn an_expression_leaves_its_value_in_one_register() {
    let mut generator = X86CodeGenerator::new();
    let node = AstNode::BinaryOperation(
        BinaryOperationType::Subtract,
        Box::new(literal(PrimitiveType::UInt16, 1000)),
        Box::new(literal(PrimitiveType::UInt16, 300)),
    );
    let register = gen_expression(&mut generator, &node).unwrap();
    assert_eq!(register, Register { size: 16, index: 0 });
    assert_eq!(
        generator.output(),
        "\tmovq\t$1000, %r8\n\tmovq\t$300, %r9\n\tsubw\t%r9w, %r8w\n"
    );
    assert!(!generator.do_post_check());
    generator.free_register(register);
    assert!(generator.do_post_check());
}

#[test]
fn the_rows_of_the_instruction_tables() {
    assert_eq!(size_to_instruction_index(8), Ok(0));
    assert_eq!(size_to_instruction_index(16), Ok(1));
    assert_eq!(size_to_instruction_index(32), Ok(2));
    assert_eq!(size_to_instruction_index(64), Ok(3));
    assert_eq!(size_to_instruction_index(0), Err(GenError::UnsupportedSize));
    assert_eq!(size_to_instruction_index(24), Err(GenError::UnsupportedSize));
    assert_eq!(size_to_instruction_index(-8), Err(GenError::UnsupportedSize));
}

#[test]
fn a_value_must_fit_its_variable() {
    assert_eq!(
        generation_error("var x: u8; var y: u32; x = y;"),
        GenError::IncompatibleAssignment
    );
    assert!(GenError::IncompatibleAssignment.is_user_facing());
}

#[test]
fn a_call_passes_at_most_two_arguments() {
    assert_eq!(
        generation_error("fn f(a: u8, b: u8, c: u8) { } f(1, 2, 3);"),
        GenError::TooManyArguments
    );
    assert!(GenError::TooManyArguments.is_user_facing());
}

#[test]
fn operands_must_be_unsigned_and_equally_wide() {
    assert_eq!(
        generation_error("var a: i32; var b: i32; a = a + b;"),
        GenError::OperandMismatch
    );
    let mut generator = X86CodeGenerator::new();
    let node = AstNode::BinaryOperation(
        BinaryOperationType::Add,
        Box::new(literal(PrimitiveType::UInt8, 1)),
        Box::new(literal(PrimitiveType::UInt16, 1)),
    );
    assert_eq!(gen_expression(&mut generator, &node), Err(GenError::OperandMismatch));
    assert!(!GenError::OperandMismatch.is_user_facing());
}

#[test]
fn only_zero_extension_is_supported() {
    assert_eq!(generation_error("var a: i32; a = 1;"), GenError::SignExtension);
}

#[test]
fn a_third_parameter_has_no_register() {
    assert_eq!(
        generation_error("fn f(a: u8, b: u8, c: u8) { print8(c); }"),
        GenError::InvalidParameterRegister
    );
}

#[test]
fn nodes_out_of_place_are_refused() {
    let mut generator = X86CodeGenerator::new();
    assert_eq!(
        gen_node(&mut generator, &literal(PrimitiveType::UInt8, 1)),
        Err(GenError::UnsupportedNode)
    );
    assert_eq!(
        gen_expression(&mut generator, &AstNode::Block(Vec::new())),
        Err(GenError::UnsupportedNode)
    );
    assert!(!GenError::UnsupportedNode.is_user_facing());
}

#[test]
fn a_function_is_no_value() {
    let mut generator = X86CodeGenerator::new();
    let function = symbol(SymbolType::Function, PrimitiveType::UInt8, 0);
    assert_eq!(
        gen_expression(&mut generator, &AstNode::Identifier(function)),
        Err(GenError::FunctionAsValue)
    );
    assert_eq!(generation_error("var x: u8; x = print8;"), GenError::UnsupportedSize);
}

#[test]
fn a_function_node_needs_a_function_that_returns_nothing() {
    let body = || Box::new(AstNode::Block(Vec::new()));
    let variable = symbol(SymbolType::Variable, PrimitiveType::Void, 0);
    assert_eq!(
        X86CodeGenerator::generate(&AstNode::Function(variable, body())),
        Err(GenError::NotAFunction)
    );
    let returning = symbol(SymbolType::Function, PrimitiveType::UInt8, 0);
    assert_eq!(
        X86CodeGenerator::generate(&AstNode::Function(returning, body())),
        Err(GenError::NonVoidFunction)
    );
}

#[test]
fn a_register_that_is_still_held_is_reported() {
    let mut generator = X86CodeGenerator::new();
    generator.get_register(8).unwrap();
    assert_eq!(gen(&mut generator, &tree("var x: u8; x = 1;")), Err(GenError::LeakedRegister));
    assert!(!GenError::LeakedRegister.is_user_facing());
}

#[test]
fn a_negative_frame_offset_is_written_as_it_is() {
    let mut generator = X86CodeGenerator::new();
    let register = generator.get_register(16).unwrap();
    let variable = symbol(SymbolType::Variable, PrimitiveType::UInt16, -6);
    generator.gen_assignment_instr(&variable, register, 1);
    assert_eq!(generator.output(), "\tsubq\t$-6, %rsp\n\tmovw\t%r8w, --6(%rbp)\n");
}

fn untouched(generator: &X86CodeGenerator) -> bool {
    generator.output().is_empty() && generator.do_post_check()
}

#[test]
fn operands_of_different_widths_are_refused_before_anything_is_emitted() {
    let mut generator = X86CodeGenerator::new();
    let node = AstNode::BinaryOperation(
        BinaryOperationType::Add,
        Box::new(literal(PrimitiveType::UInt8, 1)),
        Box::new(literal(PrimitiveType::UInt16, 300)),
    );
    assert_eq!(gen_expression(&mut generator, &node), Err(GenError::OperandMismatch));
    assert!(untouched(&generator));
    assert_eq!(generator.get_label(), Ok(0));
}

#[test]
fn signed_operands_are_refused_before_anything_is_emitted() {
    let mut generator = X86CodeGenerator::new();
    let a = Symbol {
        symbol_type: SymbolType::Variable,
        primitive_type: PrimitiveType::Int8,
        parameter_types: Vec::new(),
        name: "a".to_string(),
        offset: 1,
    };
    let node = AstNode::BinaryOperation(
        BinaryOperationType::Add,
        Box::new(AstNode::Identifier(a.clone())),
        Box::new(AstNode::Identifier(a)),
    );
    assert_eq!(gen_expression(&mut generator, &node), Err(GenError::OperandMismatch));
    assert!(untouched(&generator));
}

#[test]
fn a_statement_is_refused_as_an_expression_before_anything_is_emitted() {
    let mut generator = X86CodeGenerator::new();
    assert_eq!(
        gen_expression(&mut generator, &AstNode::Block(Vec::new())),
        Err(GenError::UnsupportedNode)
    );
    assert!(untouched(&generator));
    assert_eq!(
        gen_node(&mut generator, &literal(PrimitiveType::UInt8, 1)),
        Err(GenError::UnsupportedNode)
    );
    assert!(untouched(&generator));
}

#[test]
fn a_call_with_three_arguments_emits_nothing() {
    let mut generator = X86CodeGenerator::new();
    let call = AstNode::FunctionCall(
        "f".to_string(),
        vec![
            literal(PrimitiveType::UInt8, 1),
            literal(PrimitiveType::UInt8, 2),
            literal(PrimitiveType::UInt8, 3),
        ],
    );
    assert_eq!(gen_node(&mut generator, &call), Err(GenError::TooManyArguments));
    assert!(untouched(&generator));
}

#[test]
fn an_emission_that_fails_leaves_the_backend_as_it_was() {
    let mut generator = X86CodeGenerator::new();
    let function = symbol(SymbolType::Function, PrimitiveType::UInt8, 0);
    assert_eq!(generator.gen_identifier_instr(&function), Err(GenError::FunctionAsValue));
    assert!(untouched(&generator));
    let sizeless = symbol(SymbolType::Variable, PrimitiveType::Void, 0);
    assert_eq!(generator.gen_identifier_instr(&sizeless), Err(GenError::UnsupportedSize));
    assert!(untouched(&generator));
    let third = symbol(SymbolType::FunctionParameter, PrimitiveType::UInt8, 2);
    assert_eq!(generator.gen_identifier_instr(&third), Err(GenError::InvalidParameterRegister));
    assert!(untouched(&generator));
    assert_eq!(generator.gen_function_instr(&sizeless), Err(GenError::NotAFunction));
    assert_eq!(generator.gen_return_instr(&function), Err(GenError::NonVoidFunction));
    assert!(untouched(&generator));
    let odd = Register { size: 24, index: 0 };
    assert_eq!(generator.gen_if_instr(odd, 0), Err(GenError::UnsupportedSize));
    assert_eq!(generator.gen_while_instr(odd, 0), Err(GenError::UnsupportedSize));
    assert!(untouched(&generator));
    for _ in 0..4 {
        generator.get_register(8).unwrap();
    }
    let full = symbol(SymbolType::Function, PrimitiveType::Void, 0);
    assert_eq!(generator.gen_identifier_instr(&full), Err(GenError::OutOfRegisters));
    assert_eq!(
        generator.gen_numeric_literal_instr(&PrimitiveType::UInt8, &PrimitiveValue { bits: 1 }),
        Err(GenError::OutOfRegisters)
    );
    assert_eq!(generator.output(), "");
}

#[test]
fn a_refusal_in_the_middle_leaves_what_was_emitted_before_it() {
    let mut generator = X86CodeGenerator::new();
    let program = tree("var x: u8; x = 1 + (2 + (3 + (4 + 5)));");
    assert_eq!(generator.gen(&program), Err(GenError::OutOfRegisters));
    assert_eq!(
        generator.output(),
        "\t.globl\tmain\n\
         \t.type\tmain, @function\n\
         \tmovq\t$1, %r8\n\
         \tmovq\t$2, %r9\n\
         \tmovq\t$3, %r10\n\
         \tmovq\t$4, %r11\n"
    );
    assert_eq!(generator.get_register(8), Err(GenError::OutOfRegisters));

    let mut generator = X86CodeGenerator::new();
    let program = tree("var x: u8; var y: u32; x = y;");
    assert_eq!(generator.gen(&program), Err(GenError::IncompatibleAssignment));
    assert_eq!(
        generator.output(),
        "\t.globl\tmain\n\t.type\tmain, @function\n\tmovl\t-5(%rbp), %r8d\n"
    );
    assert_eq!(generator.get_register(8), Ok(Register { size: 8, index: 1 }));
}

#[test]
fn compile_runs_the_whole_pipeline() {
    assert_eq!(
        compile("# store a sum\nvar x: u32;\nx = 3 + 4;\n"),
        Ok(assembly("var x: u32; x = 3 + 4;"))
    );
}

#[test]
fn compile_stops_at_the_first_stage_that_fails() {
    match compile("var x: u8; x = 1 ? 2;") {
        Err(CompileError::Lex(error)) => {
            assert_eq!((error.line, error.col), (1, 18));
            assert_eq!(error.character, "?");
        }
        other => panic!("not a lexical error: {:?}", other),
    }
    match compile("foo();") {
        Err(CompileError::Parse(error)) => {
            assert_eq!(error.kind, ParseErrorKind::UnknownIdentifier)
        }
        other => panic!("not a parse error: {:?}", other),
    }
    match compile("var y: u64; print8(y);") {
        Err(CompileError::Parse(error)) => {
            assert_eq!(error.kind, ParseErrorKind::IncompatibleTypes)
        }
        other => panic!("not a parse error: {:?}", other),
    }
    assert_eq!(
        compile("var a: i32; a = 1;"),
        Err(CompileError::Generate(GenError::SignExtension))
    );
}
