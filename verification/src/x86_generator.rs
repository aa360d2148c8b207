//! The x86-64 backend: four scratch registers, one instruction name for
//! each operation and width, and assembly text in AT&T syntax.

use vstd::prelude::*;
use crate::ast::{AstNode, AstView, BinaryOperationType};
use crate::generator::{
    first_free_from, gen, lemma_first_free, program_model, size_to_instruction_index,
    CodeGenerator, GenError, GenState, Instruction, Register,
};
use crate::scope::{Symbol, SymbolType};
use crate::text::{decimal_text, push_decimal_i64};
use crate::types::{PrimitiveType, PrimitiveValue};

verus! {

/// The letter that an instruction name ends in for each width: 8, 16, 32
/// and 64 bits.
pub open spec fn width_suffix(size_index: int) -> Seq<char> {
    if size_index == 0 {
        "b"@
    } else if size_index == 1 {
        "w"@
    } else if size_index == 2 {
        "l"@
    } else {
        "q"@
    }
}

/// The name of the instruction `name` for operands of the given width.
pub open spec fn sized(name: Seq<char>, size_index: int) -> Seq<char> {
    name + width_suffix(size_index)
}

/// The name of the scratch register of slot `index`, at the given width.
pub open spec fn scratch_register(size_index: int, index: int) -> Seq<char> {
    if size_index == 0 {
        if index == 0 {
            "%r8b"@
        } else if index == 1 {
            "%r9b"@
        } else if index == 2 {
            "%r10b"@
        } else {
            "%r11b"@
        }
    } else if size_index == 1 {
        if index == 0 {
            "%r8w"@
        } else if index == 1 {
            "%r9w"@
        } else if index == 2 {
            "%r10w"@
        } else {
            "%r11w"@
        }
    } else if size_index == 2 {
        if index == 0 {
            "%r8d"@
        } else if index == 1 {
            "%r9d"@
        } else if index == 2 {
            "%r10d"@
        } else {
            "%r11d"@
        }
    } else {
        if index == 0 {
            "%r8"@
        } else if index == 1 {
            "%r9"@
        } else if index == 2 {
            "%r10"@
        } else {
            "%r11"@
        }
    }
}

/// The name of the parameter register of ordinal `ordinal`, at the given
/// width.
pub open spec fn parameter_register(size_index: int, ordinal: int) -> Seq<char> {
    if size_index == 0 {
        if ordinal == 0 {
            "%dil"@
        } else {
            "%sil"@
        }
    } else if size_index == 1 {
        if ordinal == 0 {
            "%di"@
        } else {
            "%si"@
        }
    } else if size_index == 2 {
        if ordinal == 0 {
            "%edi"@
        } else {
            "%esi"@
        }
    } else {
        if ordinal == 0 {
            "%rdi"@
        } else {
            "%rsi"@
        }
    }
}

/// The name of the accumulator at the given width.
pub open spec fn accumulator(size_index: int) -> Seq<char> {
    if size_index == 0 {
        "%al"@
    } else if size_index == 1 {
        "%ax"@
    } else if size_index == 2 {
        "%eax"@
    } else {
        "%rax"@
    }
}

/// The instruction that sets a byte to the outcome of a comparison.
pub open spec fn set_instruction(operation: BinaryOperationType) -> Seq<char> {
    match operation {
        BinaryOperationType::Equals => "sete"@,
        BinaryOperationType::NotEquals => "setne"@,
        BinaryOperationType::LessThan => "setl"@,
        BinaryOperationType::LessThanOrEqual => "setle"@,
        BinaryOperationType::GreaterThan => "setg"@,
        _ => "setge"@,
    }
}

/// A line of assembly text.
pub open spec fn line(text: Seq<char>) -> Seq<char> {
    text + "\n"@
}

/// An instruction with two register operands, the source first.
pub open spec fn two_registers(name: Seq<char>, source: Seq<char>, destination: Seq<char>) -> Seq<
    char,
> {
    "\t"@ + name + "\t"@ + source + ", "@ + destination
}

/// The text of each instruction.
pub open spec fn x86_text(instruction: Instruction) -> Seq<char> {
    match instruction {
        Instruction::Line { text } => line(text),
        Instruction::Assignment { symbol, register, size_index } => line(
            "\tsubq\t$"@ + decimal_text(symbol.offset) + ", %rsp"@,
        ) + line(
            "\t"@ + sized("mov"@, size_index) + "\t"@ + scratch_register(
                size_index,
                register.index as int,
            ) + ", -"@ + decimal_text(symbol.offset) + "(%rbp)"@,
        ),
        Instruction::Comparison { operation, left, right, size_index } => line(
            two_registers(
                sized("cmp"@, size_index),
                scratch_register(size_index, right.index as int),
                scratch_register(size_index, left.index as int),
            ),
        ) + line(
            "\t"@ + set_instruction(operation) + "\t"@ + scratch_register(0, right.index as int),
        ) + line(
            "\t"@ + sized("and"@, size_index) + "\t$255, "@ + scratch_register(
                size_index,
                right.index as int,
            ),
        ),
        Instruction::Add { left, right, size_index } => line(
            two_registers(
                sized("add"@, size_index),
                scratch_register(size_index, right.index as int),
                scratch_register(size_index, left.index as int),
            ),
        ),
        Instruction::Subtract { left, right, size_index } => line(
            two_registers(
                sized("sub"@, size_index),
                scratch_register(size_index, right.index as int),
                scratch_register(size_index, left.index as int),
            ),
        ),
        Instruction::Multiply { left, right, size_index } => line(
            two_registers(
                sized("mov"@, size_index),
                scratch_register(size_index, right.index as int),
                accumulator(size_index),
            ),
        ) + line(
            "\t"@ + sized("mul"@, size_index) + "\t"@ + scratch_register(
                size_index,
                left.index as int,
            ),
        ) + line(
            two_registers(
                sized("mov"@, size_index),
                accumulator(size_index),
                scratch_register(size_index, left.index as int),
            ),
        ),
        Instruction::Divide { left, right, size_index } => line(
            two_registers(
                sized("mov"@, size_index),
                scratch_register(size_index, left.index as int),
                accumulator(size_index),
            ),
        ) + line("\tcltd"@) + line(
            "\t"@ + sized("div"@, size_index) + "\t"@ + scratch_register(
                size_index,
                right.index as int,
            ),
        ) + line(
            two_registers(
                sized("mov"@, size_index),
                accumulator(size_index),
                scratch_register(size_index, left.index as int),
            ),
        ),
        Instruction::NumericLiteral { primitive_type, value, register } => line(
            "\t"@ + sized("mov"@, 3) + "\t$"@ + decimal_text(value.signed()) + ", "@
                + scratch_register(3, register.index as int),
        ),
        Instruction::Widen { source, source_index, result, result_index } => line(
            two_registers(
                "movzx"@,
                scratch_register(source_index, source.index as int),
                scratch_register(result_index, result.index as int),
            ),
        ),
        Instruction::LoadVariable { symbol, register, size_index } => line(
            "\t"@ + sized("mov"@, size_index) + "\t-"@ + decimal_text(symbol.offset) + "(%rbp), "@
                + scratch_register(size_index, register.index as int),
        ),
        Instruction::LoadParameter { ordinal, register, size_index } => line(
            two_registers(
                sized("mov"@, size_index),
                parameter_register(size_index, ordinal),
                scratch_register(size_index, register.index as int),
            ),
        ),
        Instruction::Argument { ordinal, register, size_index } => line(
            "\txor\t\t"@ + parameter_register(3, ordinal) + ","@ + parameter_register(3, ordinal),
        ) + line(
            two_registers(
                sized("mov"@, size_index),
                scratch_register(size_index, register.index as int),
                parameter_register(size_index, ordinal),
            ),
        ),
        Instruction::Call { name } => line("\tcall\t"@ + name),
        Instruction::JumpIfZero { condition, size_index, label } => line(
            "\t"@ + sized("cmp"@, size_index) + "\t$0, "@ + scratch_register(
                size_index,
                condition.index as int,
            ),
        ) + line("\tjz\t\tL"@ + decimal_text(label)),
        Instruction::SkipElse { end_label } => line("\tjmp L"@ + decimal_text(end_label)),
        Instruction::Jump { label } => line("\tjmp\t\tL"@ + decimal_text(label)),
        Instruction::Label { label } => line("L"@ + decimal_text(label) + ":"@),
        Instruction::FunctionStart { name } => line(name + ":"@) + line("\tpush\t%rbp"@) + line(
            "\tmov\t\t%rsp, %rbp"@,
        ),
        Instruction::FunctionEnd => line("\tmov\t\t%rbp, %rsp"@) + line("\tpop\t\t%rbp"@) + line(
            "\tret"@,
        ),
    }
}

/// The letter that an instruction name ends in at the given width.
fn suffix(size_index: usize) -> (name: &'static str)
    requires
        size_index < 4,
    ensures
        name@ == width_suffix(size_index as int),
{
    if size_index == 0 {
        "b"
    } else if size_index == 1 {
        "w"
    } else if size_index == 2 {
        "l"
    } else {
        "q"
    }
}

/// The name of the scratch register of slot `index` at the given width.
fn scratch(size_index: usize, index: usize) -> (name: &'static str)
    requires
        size_index < 4,
        index < 4,
    ensures
        name@ == scratch_register(size_index as int, index as int),
{
    if size_index == 0 {
        if index == 0 {
            "%r8b"
        } else if index == 1 {
            "%r9b"
        } else if index == 2 {
            "%r10b"
        } else {
            "%r11b"
        }
    } else if size_index == 1 {
        if index == 0 {
            "%r8w"
        } else if index == 1 {
            "%r9w"
        } else if index == 2 {
            "%r10w"
        } else {
            "%r11w"
        }
    } else if size_index == 2 {
        if index == 0 {
            "%r8d"
        } else if index == 1 {
            "%r9d"
        } else if index == 2 {
            "%r10d"
        } else {
            "%r11d"
        }
    } else {
        if index == 0 {
            "%r8"
        } else if index == 1 {
            "%r9"
        } else if index == 2 {
            "%r10"
        } else {
            "%r11"
        }
    }
}

/// The name of the parameter register of ordinal `ordinal` at the given
/// width.
fn parameter(size_index: usize, ordinal: usize) -> (name: &'static str)
    requires
        size_index < 4,
        ordinal < 2,
    ensures
        name@ == parameter_register(size_index as int, ordinal as int),
{
    if size_index == 0 {
        if ordinal == 0 {
            "%dil"
        } else {
            "%sil"
        }
    } else if size_index == 1 {
        if ordinal == 0 {
            "%di"
        } else {
            "%si"
        }
    } else if size_index == 2 {
        if ordinal == 0 {
            "%edi"
        } else {
            "%esi"
        }
    } else {
        if ordinal == 0 {
            "%rdi"
        } else {
            "%rsi"
        }
    }
}

/// The name of the accumulator at the given width.
fn eax(size_index: usize) -> (name: &'static str)
    requires
        size_index < 4,
    ensures
        name@ == accumulator(size_index as int),
{
    if size_index == 0 {
        "%al"
    } else if size_index == 1 {
        "%ax"
    } else if size_index == 2 {
        "%eax"
    } else {
        "%rax"
    }
}

/// The instruction that sets a byte to the outcome of a comparison.
fn set_name(operation: BinaryOperationType) -> (name: &'static str)
    ensures
        name@ == set_instruction(operation),
{
    match operation {
        BinaryOperationType::Equals => "sete",
        BinaryOperationType::NotEquals => "setne",
        BinaryOperationType::LessThan => "setl",
        BinaryOperationType::LessThanOrEqual => "setle",
        BinaryOperationType::GreaterThan => "setg",
        _ => "setge",
    }
}

/// The start of an instruction line: a tab, the name of the instruction at
/// the given width, and a tab.
fn instruction(name: &str, size_index: usize) -> (text: String)
    requires
        size_index < 4,
    ensures
        text@ == "\t"@ + sized(name@, size_index as int) + "\t"@,
{
    let mut text = "\t".to_owned();
    text.append(name);
    text.append(suffix(size_index));
    text.append("\t");
    text
}

/// An instruction line with two register operands, the source first.
fn register_pair(name: &str, size_index: usize, source: &str, destination: &str) -> (text: String)
    requires
        size_index < 4,
    ensures
        text@ == two_registers(sized(name@, size_index as int), source@, destination@),
{
    let mut text = instruction(name, size_index);
    text.append(source);
    text.append(", ");
    text.append(destination);
    text
}

/// The code generator for x86-64. It keeps the assembly text that it has
/// emitted; whoever owns it writes the text out.
pub struct X86CodeGenerator {
    output: String,
    registers: [Option<Register>; 4],
    label_index: i32,
}

impl X86CodeGenerator {
    /// A generator that has emitted nothing, with every register free and
    /// 0 as its first label.
    pub fn new() -> (generator: Self)
        ensures
            generator.state() == x86_initial_state(),
    {
        let generator = X86CodeGenerator {
            output: String::new(),
            registers: [None, None, None, None],
            label_index: 0,
        };
        assert(generator.state().registers =~= seq![false, false, false, false]);
        generator
    }

    /// Whether every scratch register is in use.
    fn is_full(&self) -> (full: bool)
        ensures
            full == (first_free_from(self.state().registers, 0) is None),
    {
        let ghost registers = self.state().registers;
        let mut i: usize = 0;
        while i < 4
            invariant
                i <= 4,
                registers == self.state().registers,
                first_free_from(registers, 0) == first_free_from(registers, i as int),
            decreases 4 - i,
        {
            if self.registers[i].is_none() {
                return false;
            }
            i += 1;
        }
        true
    }

    /// The assembly text emitted so far.
    pub fn output(&self) -> (text: &str)
        ensures
            text@ == self.state().text,
    {
        self.output.as_str()
    }

    /// The generator's assembly text, all of it.
    pub fn into_output(self) -> (text: String)
        ensures
            text@ == self.state().text,
    {
        self.output
    }

    /// Generates the code of a program after what has been emitted so far:
    /// the two lines that declare `main`, then the code of the tree. In
    /// the end every register must be free, which it is if every register
    /// was free before. Where the walk refuses the tree, the generator is
    /// left as it was at the point of the refusal.
    pub fn gen(&mut self, node: &AstNode) -> (result: Result<(), GenError>)
        ensures
            match program_model::<X86CodeGenerator>(old(self).state(), node@) {
                Ok(state) => result is Ok && final(self).state() == state,
                Err(failure) => result == Err::<(), GenError>(failure.error) && final(self).state()
                    == failure.state,
            },
            old(self).state().all_free() ==> result != Err::<(), GenError>(
                GenError::LeakedRegister,
            ),
    {
        gen(self, node)
    }

    /// Generates the assembly text of a program. The text is a function of
    /// the tree alone: the same tree gives the same text, character by
    /// character, every time. A leaked register is never reported.
    pub fn generate(node: &AstNode) -> (result: Result<String, GenError>)
        ensures
            match x86_assembly(node@) {
                Ok(text) => result is Ok && result->Ok_0@ == text,
                Err(error) => result == Err::<String, GenError>(error),
            },
            !(result matches Err(GenError::LeakedRegister)),
    {
        let mut generator = X86CodeGenerator::new();
        generator.gen(node)?;
        Ok(generator.into_output())
    }
}

/// The state of a generator that has done nothing yet.
pub open spec fn x86_initial_state() -> GenState {
    GenState {
        text: Seq::<char>::empty(),
        registers: seq![false, false, false, false],
        label_index: 0,
    }
}

/// The x86-64 assembly text of a program.
pub open spec fn x86_assembly(node: AstView) -> Result<Seq<char>, GenError> {
    match program_model::<X86CodeGenerator>(x86_initial_state(), node) {
        Ok(state) => Ok(state.text),
        Err(failure) => Err(failure.error),
    }
}

impl CodeGenerator for X86CodeGenerator {
    closed spec fn state(&self) -> GenState {
        GenState {
            text: self.output@,
            registers: Seq::new(4, |i: int| self.registers[i] is Some),
            label_index: self.label_index as int,
        }
    }

    open spec fn instruction_text(instruction: Instruction) -> Seq<char> {
        x86_text(instruction)
    }

    open spec fn parameter_registers() -> nat {
        2
    }

    proof fn lemma_pool_fits(&self) {
    }

    fn max_arguments(&self) -> (count: usize) {
        2
    }

    fn write(&mut self, data: &str) {
        self.output.append(data);
        self.output.append("\n");
        assert(self.output@ =~= old(self).output@ + line(data@));
    }

    fn get_label(&mut self) -> (label: Result<i32, GenError>) {
        if self.label_index == i32::MAX {
            return Err(GenError::TooManyLabels);
        }
        let result = self.label_index;
        self.label_index += 1;
        Ok(result)
    }

    fn get_register(&mut self, size: i32) -> (register: Result<Register, GenError>) {
        let ghost before = self.state().registers;
        let mut i: usize = 0;
        while i < 4
            invariant
                i <= 4,
                *self == *old(self),
                before == self.state().registers,
                first_free_from(before, 0) == first_free_from(before, i as int),
            decreases 4 - i,
        {
            if self.registers[i].is_none() {
                let register = Register { size, index: i };
                self.registers[i] = Some(register);
                assert(self.state().registers =~= before.update(i as int, true));
                return Ok(register);
            }
            i += 1;
        }
        Err(GenError::OutOfRegisters)
    }

    fn free_register(&mut self, reg: Register) {
        self.registers[reg.index] = None;
        assert(self.state().registers =~= old(self).state().registers.update(
            reg.index as int,
            false,
        ));
    }

    fn gen_assignment_instr(&mut self, variable: &Symbol, register: Register, size_index: usize) {
        let mut frame = "\tsubq\t$".to_owned();
        push_decimal_i64(&mut frame, variable.offset as i64);
        frame.append(", %rsp");
        self.write(frame.as_str());
        let mut store = instruction("mov", size_index);
        store.append(scratch(size_index, register.index));
        store.append(", -");
        push_decimal_i64(&mut store, variable.offset as i64);
        store.append("(%rbp)");
        self.write(store.as_str());
        assert(self.output@ =~= old(self).output@ + (line(frame@) + line(store@)));
    }

    fn gen_comparison_instr(
        &mut self,
        left_reg: Register,
        right_reg: Register,
        size_index: usize,
        comparison_type: BinaryOperationType,
    ) -> (result: Register) {
        let compare = register_pair(
            "cmp",
            size_index,
            scratch(size_index, right_reg.index),
            scratch(size_index, left_reg.index),
        );
        self.write(compare.as_str());
        let mut set = "\t".to_owned();
        set.append(set_name(comparison_type));
        set.append("\t");
        set.append(scratch(0, right_reg.index));
        self.write(set.as_str());
        let mut mask = "\t".to_owned();
        mask.append("and");
        mask.append(suffix(size_index));
        mask.append("\t$255, ");
        mask.append(scratch(size_index, right_reg.index));
        assert(mask@ =~= "\t"@ + sized("and"@, size_index as int) + "\t$255, "@ + scratch_register(
            size_index as int,
            right_reg.index as int,
        ));
        self.write(mask.as_str());
        assert(self.output@ =~= old(self).output@ + (line(compare@) + line(set@) + line(mask@)));
        self.free_register(left_reg);
        right_reg
    }

    fn gen_add_instr(&mut self, left_reg: Register, right_reg: Register, size_index: usize) -> (result:
        Register) {
        let add = register_pair(
            "add",
            size_index,
            scratch(size_index, right_reg.index),
            scratch(size_index, left_reg.index),
        );
        self.write(add.as_str());
        self.free_register(right_reg);
        left_reg
    }

    fn gen_subtract_instr(
        &mut self,
        left_reg: Register,
        right_reg: Register,
        size_index: usize,
    ) -> (result: Register) {
        let subtract = register_pair(
            "sub",
            size_index,
            scratch(size_index, right_reg.index),
            scratch(size_index, left_reg.index),
        );
        self.write(subtract.as_str());
        self.free_register(right_reg);
        left_reg
    }

    fn gen_multiply_instr(
        &mut self,
        left_reg: Register,
        right_reg: Register,
        size_index: usize,
    ) -> (result: Register) {
        let load = register_pair(
            "mov",
            size_index,
            scratch(size_index, right_reg.index),
            eax(size_index),
        );
        self.write(load.as_str());
        let mut multiply = instruction("mul", size_index);
        multiply.append(scratch(size_index, left_reg.index));
        self.write(multiply.as_str());
        let store = register_pair(
            "mov",
            size_index,
            eax(size_index),
            scratch(size_index, left_reg.index),
        );
        self.write(store.as_str());
        assert(self.output@ =~= old(self).output@ + (line(load@) + line(multiply@) + line(
            store@,
        )));
        self.free_register(right_reg);
        left_reg
    }

    fn gen_divide_instr(&mut self, left_reg: Register, right_reg: Register, size_index: usize) -> (result:
        Register) {
        let load = register_pair(
            "mov",
            size_index,
            scratch(size_index, left_reg.index),
            eax(size_index),
        );
        self.write(load.as_str());
        self.write("\tcltd");
        let mut divide = instruction("div", size_index);
        divide.append(scratch(size_index, right_reg.index));
        self.write(divide.as_str());
        let store = register_pair(
            "mov",
            size_index,
            eax(size_index),
            scratch(size_index, left_reg.index),
        );
        self.write(store.as_str());
        assert(self.output@ =~= old(self).output@ + (line(load@) + line("\tcltd"@) + line(
            divide@,
        ) + line(store@)));
        self.free_register(right_reg);
        left_reg
    }

    fn gen_numeric_literal_instr(
        &mut self,
        primitive_type: &PrimitiveType,
        primitive_value: &PrimitiveValue,
    ) -> (result: Result<Register, GenError>) {
        let register = self.get_register(primitive_type.get_size())?;
        proof {
            lemma_first_free(old(self).state().registers, 0);
        }
        let mut text = instruction("mov", 3);
        text.append("$");
        push_decimal_i64(&mut text, primitive_value.as_i64());
        text.append(", ");
        text.append(scratch(3, register.index));
        proof {
            reveal_strlit("\t");
            reveal_strlit("$");
            reveal_strlit("\t$");
            assert(text@ =~= "\t"@ + sized("mov"@, 3) + "\t$"@ + decimal_text(
                primitive_value.signed(),
            ) + ", "@ + scratch_register(3, register.index as int));
        }
        self.write(text.as_str());
        Ok(register)
    }

    fn gen_widen_instr(
        &mut self,
        register: Register,
        primitive_type: &PrimitiveType,
        src_index: usize,
        dest_index: usize,
    ) -> (result: Result<Register, GenError>) {
        let result_reg = self.get_register(primitive_type.get_size())?;
        proof {
            lemma_first_free(old(self).state().registers, 0);
        }
        let mut text = "\t".to_owned();
        text.append("movzx");
        text.append("\t");
        text.append(scratch(src_index, register.index));
        text.append(", ");
        text.append(scratch(dest_index, result_reg.index));
        self.write(text.as_str());
        self.free_register(register);
        Ok(result_reg)
    }

    fn gen_identifier_instr(&mut self, symbol: &Symbol) -> (result: Result<Register, GenError>) {
        let size = symbol.primitive_type.get_size();
        if self.is_full() {
            return Err(GenError::OutOfRegisters);
        }
        let index = size_to_instruction_index(size)?;
        match symbol.symbol_type {
            SymbolType::Variable => {},
            SymbolType::FunctionParameter => {
                if symbol.offset < 0 || symbol.offset >= 2 {
                    return Err(GenError::InvalidParameterRegister);
                }
            },
            SymbolType::Function => {
                return Err(GenError::FunctionAsValue);
            },
        }
        let register = self.get_register(size)?;
        proof {
            lemma_first_free(old(self).state().registers, 0);
        }
        match symbol.symbol_type {
            SymbolType::Variable => {
                let mut text = instruction("mov", index);
                text.append("-");
                push_decimal_i64(&mut text, symbol.offset as i64);
                text.append("(%rbp), ");
                text.append(scratch(index, register.index));
                proof {
                    reveal_strlit("\t");
                    reveal_strlit("-");
                    reveal_strlit("\t-");
                    assert(text@ =~= "\t"@ + sized("mov"@, index as int) + "\t-"@ + decimal_text(
                        symbol.offset as int,
                    ) + "(%rbp), "@ + scratch_register(index as int, register.index as int));
                }
                self.write(text.as_str());
            },
            SymbolType::FunctionParameter => {
                let text = register_pair(
                    "mov",
                    index,
                    parameter(index, symbol.offset as usize),
                    scratch(index, register.index),
                );
                self.write(text.as_str());
            },
            SymbolType::Function => {},
        }
        Ok(register)
    }

    fn gen_argument_instr(&mut self, ordinal: usize, register: Register, size_index: usize) {
        let mut clear = "\txor\t\t".to_owned();
        clear.append(parameter(3, ordinal));
        clear.append(",");
        clear.append(parameter(3, ordinal));
        self.write(clear.as_str());
        let pass = register_pair(
            "mov",
            size_index,
            scratch(size_index, register.index),
            parameter(size_index, ordinal),
        );
        self.write(pass.as_str());
        assert(self.output@ =~= old(self).output@ + (line(clear@) + line(pass@)));
    }

    fn gen_functioncall_instr(&mut self, name: &String) {
        let mut text = "\tcall\t".to_owned();
        text.append(name.as_str());
        self.write(text.as_str());
    }

    fn gen_if_instr(&mut self, condition: Register, label: i32) -> (result: Result<(), GenError>) {
        self.gen_while_instr(condition, label)
    }

    fn gen_else_instr(&mut self, end_label: i32) {
        let mut text = "\tjmp L".to_owned();
        push_decimal_i64(&mut text, end_label as i64);
        self.write(text.as_str());
    }

    fn gen_while_instr(&mut self, condition: Register, label: i32) -> (result: Result<
        (),
        GenError,
    >) {
        let instr_index = size_to_instruction_index(condition.size)?;
        let mut test = instruction("cmp", instr_index);
        test.append("$0, ");
        test.append(scratch(instr_index, condition.index));
        proof {
            reveal_strlit("\t");
            reveal_strlit("$0, ");
            reveal_strlit("\t$0, ");
            assert(test@ =~= "\t"@ + sized("cmp"@, instr_index as int) + "\t$0, "@
                + scratch_register(instr_index as int, condition.index as int));
        }
        self.write(test.as_str());
        let mut jump = "\tjz\t\tL".to_owned();
        push_decimal_i64(&mut jump, label as i64);
        self.write(jump.as_str());
        assert(self.output@ =~= old(self).output@ + (line(test@) + line(jump@)));
        Ok(())
    }

    fn gen_jump_instr(&mut self, label: i32) {
        let mut text = "\tjmp\t\tL".to_owned();
        push_decimal_i64(&mut text, label as i64);
        self.write(text.as_str());
    }

    fn gen_label_instr(&mut self, label: i32) {
        let mut text = "L".to_owned();
        push_decimal_i64(&mut text, label as i64);
        text.append(":");
        self.write(text.as_str());
    }

    fn gen_function_instr(&mut self, symbol: &Symbol) -> (result: Result<(), GenError>) {
        if symbol.symbol_type != SymbolType::Function {
            return Err(GenError::NotAFunction);
        }
        let mut label = symbol.name.clone();
        label.append(":");
        self.write(label.as_str());
        self.write("\tpush\t%rbp");
        self.write("\tmov\t\t%rsp, %rbp");
        assert(self.output@ =~= old(self).output@ + (line(label@) + line("\tpush\t%rbp"@) + line(
            "\tmov\t\t%rsp, %rbp"@,
        )));
        Ok(())
    }

    fn gen_return_instr(&mut self, symbol: &Symbol) -> (result: Result<(), GenError>) {
        if symbol.primitive_type != PrimitiveType::Void {
            return Err(GenError::NonVoidFunction);
        }
        self.write("\tmov\t\t%rbp, %rsp");
        self.write("\tpop\t\t%rbp");
        self.write("\tret");
        assert(self.output@ =~= old(self).output@ + (line("\tmov\t\t%rbp, %rsp"@) + line(
            "\tpop\t\t%rbp"@,
        ) + line("\tret"@)));
        Ok(())
    }

    fn do_post_check(&self) -> (free: bool) {
        let mut i: usize = 0;
        while i < 4
            invariant
                i <= 4,
                forall|j: int| 0 <= j < i ==> !#[trigger] self.state().registers[j],
            decreases 4 - i,
        {
            if self.registers[i].is_some() {
                assert(self.state().registers[i as int]);
                return false;
            }
            i += 1;
        }
        true
    }
}

} // verus!
