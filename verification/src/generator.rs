//! Code generation that is the same for every target: one depth-first walk
//! of the syntax tree, written against the emission interface that a
//! backend implements.

use vstd::prelude::*;
use crate::ast::{views_of, AstNode, AstView, BinaryOperationType};
use crate::scope::{Symbol, SymbolType, SymbolView};
use crate::types::{PrimitiveType, PrimitiveValue};

verus! {

/// A scratch register: the width in bits of the value it holds and the
/// slot of the register pool that it occupies.
#[derive(Debug, Copy, Clone, PartialEq, Eq, Structural)]
pub struct Register {
    pub size: i32,
    pub index: usize,
}

/// Why code generation stopped.
#[derive(Debug, Copy, Clone, PartialEq, Eq, Structural)]
pub enum GenError {
    /// Every scratch register is in use.
    OutOfRegisters,
    /// An assignment whose value does not fit the type of its variable.
    IncompatibleAssignment,
    /// A call with more arguments than the target passes in registers.
    TooManyArguments,
    /// The program needs more labels than 32 bits count.
    TooManyLabels,
    /// A node stands where the walk has no code for it.
    UnsupportedNode,
    /// A value whose width is none of 8, 16, 32 and 64 bits.
    UnsupportedSize,
    /// The operands of an operator differ in width, or one is not unsigned.
    OperandMismatch,
    /// A widening to a type that is not unsigned.
    SignExtension,
    /// The name of a function stands where a value is read.
    FunctionAsValue,
    /// A function parameter whose ordinal has no parameter register.
    InvalidParameterRegister,
    /// A function node whose symbol is no function.
    NotAFunction,
    /// A function that returns a value.
    NonVoidFunction,
    /// A scratch register was still in use when the program was done.
    LeakedRegister,
}

impl GenError {
    /// Whether the error reports a fault of the program that is compiled.
    /// Every other error reports a tree that the walk has no code for, be
    /// it one that parses (operands that are signed or `Bool`, a widening
    /// to a signed type) or one that no parser builds, or a fault of the
    /// compiler itself.
    pub open spec fn user_facing(self) -> bool {
        self is OutOfRegisters || self is IncompatibleAssignment || self is TooManyArguments
            || self is TooManyLabels
    }

    /// Whether the error reports a fault of the program that is compiled,
    /// as opposed to an inconsistency inside the compiler.
    pub fn is_user_facing(&self) -> (user_facing: bool)
        ensures
            user_facing == self.user_facing(),
    {
        match self {
            GenError::OutOfRegisters
            | GenError::IncompatibleAssignment
            | GenError::TooManyArguments
            | GenError::TooManyLabels => true,
            _ => false,
        }
    }
}

/// What a code generator has done so far: the text it has emitted, which
/// slots of its register pool are in use, and the number of its next label.
pub struct GenState {
    pub text: Seq<char>,
    pub registers: Seq<bool>,
    pub label_index: int,
}

/// A refusal of the walk: why it stopped, and the state in which it left the
/// generator.
pub struct GenFailure {
    pub state: GenState,
    pub error: GenError,
}

/// The refusal with `error` that leaves the generator in `state`.
pub open spec fn refusal<T>(state: GenState, error: GenError) -> Result<T, GenFailure> {
    Err(GenFailure { state, error })
}

/// The first slot from `from` on that is not in use.
pub open spec fn first_free_from(registers: Seq<bool>, from: int) -> Option<int>
    decreases registers.len() - from,
{
    if from < 0 || from >= registers.len() {
        None
    } else if !registers[from] {
        Some(from)
    } else {
        first_free_from(registers, from + 1)
    }
}

impl GenState {
    /// The state after `text` is emitted.
    pub open spec fn emit(self, text: Seq<char>) -> GenState {
        GenState { text: self.text + text, ..self }
    }

    /// Whether `register` names a slot of the pool.
    pub open spec fn names(self, register: Register) -> bool {
        register.index < self.registers.len()
    }

    /// Whether `register` names a slot of the pool that is in use.
    pub open spec fn holds(self, register: Register) -> bool {
        register.index < self.registers.len() && self.registers[register.index as int]
    }

    /// Whether no slot of the pool is in use.
    pub open spec fn all_free(self) -> bool {
        forall|i: int| 0 <= i < self.registers.len() ==> !#[trigger] self.registers[i]
    }

    /// Takes the first free slot of the pool for a value of `size` bits.
    pub open spec fn allocate(self, size: int) -> Result<(GenState, Register), GenError> {
        match first_free_from(self.registers, 0) {
            Some(index) => Ok(
                (
                    GenState { registers: self.registers.update(index, true), ..self },
                    Register { size: size as i32, index: index as usize },
                ),
            ),
            None => Err(GenError::OutOfRegisters),
        }
    }

    /// The state after the slot of `register` is given back.
    pub open spec fn release(self, register: Register) -> GenState {
        GenState { registers: self.registers.update(register.index as int, false), ..self }
    }

    /// Takes the next label.
    pub open spec fn label(self) -> Result<(GenState, i32), GenError> {
        if i32::MIN <= self.label_index < i32::MAX {
            Ok((GenState { label_index: self.label_index + 1, ..self }, self.label_index as i32))
        } else {
            Err(GenError::TooManyLabels)
        }
    }

    /// Whether `after` can come after this state: text is only ever added
    /// at the end, and labels are only ever taken.
    pub open spec fn grew_into(self, after: GenState) -> bool {
        &&& self.text.is_prefix_of(after.text)
        &&& self.label_index <= after.label_index
    }

    /// Whether `after` is this state with one more slot in use, that of
    /// `register`.
    pub open spec fn took(self, after: GenState, register: Register) -> bool {
        &&& register.index < self.registers.len()
        &&& !self.registers[register.index as int]
        &&& after.registers == self.registers.update(register.index as int, true)
    }
}

/// What can come after what can come after a state can come after it.
pub proof fn lemma_grew_into_transitive(first: GenState, second: GenState, third: GenState)
    requires
        first.grew_into(second),
        second.grew_into(third),
    ensures
        first.grew_into(third),
{
}

/// The first free slot is a slot, it is free, and every slot before it is
/// in use; there is none only where every slot is in use.
pub proof fn lemma_first_free(registers: Seq<bool>, from: int)
    requires
        0 <= from,
    ensures
        match first_free_from(registers, from) {
            Some(index) => {
                &&& from <= index < registers.len()
                &&& !registers[index]
                &&& forall|i: int| from <= i < index ==> registers[i]
            },
            None => forall|i: int| from <= i < registers.len() ==> registers[i],
        },
    decreases registers.len() - from,
{
    if from < registers.len() && registers[from] {
        lemma_first_free(registers, from + 1);
    }
}

/// The row of the instruction tables for values of `size` bits.
pub open spec fn size_index_of(size: int) -> Result<usize, GenError> {
    if size == 8 {
        Ok(0usize)
    } else if size == 16 {
        Ok(1usize)
    } else if size == 32 {
        Ok(2usize)
    } else if size == 64 {
        Ok(3usize)
    } else {
        Err(GenError::UnsupportedSize)
    }
}

/// The row of the instruction tables for values of `size` bits.
pub fn size_to_instruction_index(size: i32) -> (index: Result<usize, GenError>)
    ensures
        index == size_index_of(size as int),
        index is Ok ==> index->Ok_0 < 4,
{
    if size == 8 {
        Ok(0)
    } else if size == 16 {
        Ok(1)
    } else if size == 32 {
        Ok(2)
    } else if size == 64 {
        Ok(3)
    } else {
        Err(GenError::UnsupportedSize)
    }
}

/// One emission of a backend: what the walk asks a backend to write.
pub enum Instruction {
    /// A line of text as it stands.
    Line { text: Seq<char> },
    /// Store `register` in the frame slot of the variable `symbol`.
    Assignment { symbol: SymbolView, register: Register, size_index: int },
    /// Compare `left` with `right` and leave 0 or 1 in `right`.
    Comparison { operation: BinaryOperationType, left: Register, right: Register, size_index: int },
    /// Add `right` to `left`.
    Add { left: Register, right: Register, size_index: int },
    /// Subtract `right` from `left`.
    Subtract { left: Register, right: Register, size_index: int },
    /// Multiply `left` by `right`.
    Multiply { left: Register, right: Register, size_index: int },
    /// Divide `left` by `right`.
    Divide { left: Register, right: Register, size_index: int },
    /// Put a literal in `register`.
    NumericLiteral { primitive_type: PrimitiveType, value: PrimitiveValue, register: Register },
    /// Extend `source` with zeros into `result`.
    Widen { source: Register, source_index: int, result: Register, result_index: int },
    /// Load the variable `symbol` from its frame slot into `register`.
    LoadVariable { symbol: SymbolView, register: Register, size_index: int },
    /// Load the function parameter of ordinal `ordinal` into `register`.
    LoadParameter { ordinal: int, register: Register, size_index: int },
    /// Pass `register` as the argument of ordinal `ordinal` of a call.
    Argument { ordinal: int, register: Register, size_index: int },
    /// Call the function `name`.
    Call { name: Seq<char> },
    /// Jump to `label` if `condition` holds zero.
    JumpIfZero { condition: Register, size_index: int, label: int },
    /// At the end of the first branch of an `if`: jump to its end.
    SkipElse { end_label: int },
    /// Jump to `label`.
    Jump { label: int },
    /// Place `label` here.
    Label { label: int },
    /// The label and the prologue of the function `name`.
    FunctionStart { name: Seq<char> },
    /// The epilogue of a function and its return.
    FunctionEnd,
}

/// Loading the value of a name: a fresh register of the width of its type,
/// filled from the frame slot of a variable or from the parameter register
/// of a function parameter.
pub open spec fn identifier_model(
    state: GenState,
    symbol: SymbolView,
    parameter_registers: nat,
    text: spec_fn(Instruction) -> Seq<char>,
) -> Result<(GenState, Register), GenError> {
    match state.allocate(symbol.primitive_type.size()) {
        Err(failure) => Err(failure),
        Ok((allocated, register)) => match size_index_of(symbol.primitive_type.size()) {
            Err(failure) => Err(failure),
            Ok(size_index) => match symbol.symbol_type {
                SymbolType::Variable => Ok(
                    (
                        allocated.emit(
                            text(
                                Instruction::LoadVariable {
                                    symbol,
                                    register,
                                    size_index: size_index as int,
                                },
                            ),
                        ),
                        register,
                    ),
                ),
                SymbolType::FunctionParameter => {
                    if 0 <= symbol.offset < parameter_registers {
                        Ok(
                            (
                                allocated.emit(
                                    text(
                                        Instruction::LoadParameter {
                                            ordinal: symbol.offset,
                                            register,
                                            size_index: size_index as int,
                                        },
                                    ),
                                ),
                                register,
                            ),
                        )
                    } else {
                        Err(GenError::InvalidParameterRegister)
                    }
                },
                SymbolType::Function => Err(GenError::FunctionAsValue),
            },
        },
    }
}

/// The emission interface of a target. A backend keeps the text it has
/// emitted, a pool of scratch registers of which `get_register` hands out
/// the first free one, and a counter of labels; it says what text each
/// instruction is. An emission that fails leaves the backend as it was.
/// The walk over the syntax tree is written once, against this interface.
pub trait CodeGenerator: Sized {
    /// What the generator has done so far.
    spec fn state(&self) -> GenState;

    /// The text that the target writes for `instruction`.
    spec fn instruction_text(instruction: Instruction) -> Seq<char>;

    /// How many arguments of a call, and parameters of a function, the
    /// target passes in registers.
    spec fn parameter_registers() -> nat;

    /// The register pool is small enough for its slots to be indexed.
    proof fn lemma_pool_fits(&self)
        ensures
            self.state().registers.len() <= usize::MAX,
    ;

    /// The most arguments that a call can pass.
    fn max_arguments(&self) -> (count: usize)
        ensures
            count == Self::parameter_registers(),
    ;

    /// Emits `data` as one line.
    fn write(&mut self, data: &str)
        ensures
            final(self).state() == old(self).state().emit(
                Self::instruction_text(Instruction::Line { text: data@ }),
            ),
    ;

    /// Takes the next label.
    fn get_label(&mut self) -> (label: Result<i32, GenError>)
        ensures
            match old(self).state().label() {
                Ok((state, number)) => label == Ok::<i32, GenError>(number) && final(self).state()
                    == state,
                Err(error) => label == Err::<i32, GenError>(error) && final(self).state()
                    == old(self).state(),
            },
    ;

    /// Takes the first free scratch register, for a value of `size` bits.
    fn get_register(&mut self, size: i32) -> (register: Result<Register, GenError>)
        ensures
            match old(self).state().allocate(size as int) {
                Ok((state, taken)) => register == Ok::<Register, GenError>(taken) && final(self).state() == state,
                Err(error) => register == Err::<Register, GenError>(error) && final(self).state()
                    == old(self).state(),
            },
    ;

    /// Gives back a scratch register that is in use.
    fn free_register(&mut self, reg: Register)
        requires
            old(self).state().holds(reg),
        ensures
            final(self).state() == old(self).state().release(reg),
    ;

    /// Stores `register` in the frame slot of `variable`.
    fn gen_assignment_instr(&mut self, variable: &Symbol, register: Register, size_index: usize)
        requires
            old(self).state().names(register),
            size_index < 4,
        ensures
            final(self).state() == old(self).state().emit(
                Self::instruction_text(
                    Instruction::Assignment {
                        symbol: variable@,
                        register,
                        size_index: size_index as int,
                    },
                ),
            ),
    ;

    /// Compares two registers; the left one is given back and the result
    /// stands in the right one.
    fn gen_comparison_instr(
        &mut self,
        left_reg: Register,
        right_reg: Register,
        size_index: usize,
        comparison_type: BinaryOperationType,
    ) -> (result: Register)
        requires
            old(self).state().holds(left_reg),
            old(self).state().names(right_reg),
            size_index < 4,
            comparison_type.is_comparison(),
        ensures
            result == right_reg,
            final(self).state() == old(self).state().emit(
                Self::instruction_text(
                    Instruction::Comparison {
                        operation: comparison_type,
                        left: left_reg,
                        right: right_reg,
                        size_index: size_index as int,
                    },
                ),
            ).release(left_reg),
    ;

    /// Adds two registers; the right one is given back and the result
    /// stands in the left one.
    fn gen_add_instr(&mut self, left_reg: Register, right_reg: Register, size_index: usize) -> (result:
        Register)
        requires
            old(self).state().names(left_reg),
            old(self).state().holds(right_reg),
            size_index < 4,
        ensures
            result == left_reg,
            final(self).state() == old(self).state().emit(
                Self::instruction_text(
                    Instruction::Add {
                        left: left_reg,
                        right: right_reg,
                        size_index: size_index as int,
                    },
                ),
            ).release(right_reg),
    ;

    /// Subtracts the right register from the left one; the right one is
    /// given back and the result stands in the left one.
    fn gen_subtract_instr(
        &mut self,
        left_reg: Register,
        right_reg: Register,
        size_index: usize,
    ) -> (result: Register)
        requires
            old(self).state().names(left_reg),
            old(self).state().holds(right_reg),
            size_index < 4,
        ensures
            result == left_reg,
            final(self).state() == old(self).state().emit(
                Self::instruction_text(
                    Instruction::Subtract {
                        left: left_reg,
                        right: right_reg,
                        size_index: size_index as int,
                    },
                ),
            ).release(right_reg),
    ;

    /// Multiplies two registers; the right one is given back and the
    /// result stands in the left one.
    fn gen_multiply_instr(
        &mut self,
        left_reg: Register,
        right_reg: Register,
        size_index: usize,
    ) -> (result: Register)
        requires
            old(self).state().names(left_reg),
            old(self).state().holds(right_reg),
            size_index < 4,
        ensures
            result == left_reg,
            final(self).state() == old(self).state().emit(
                Self::instruction_text(
                    Instruction::Multiply {
                        left: left_reg,
                        right: right_reg,
                        size_index: size_index as int,
                    },
                ),
            ).release(right_reg),
    ;

    /// Divides the left register by the right one; the right one is given
    /// back and the result stands in the left one.
    fn gen_divide_instr(&mut self, left_reg: Register, right_reg: Register, size_index: usize) -> (result:
        Register)
        requires
            old(self).state().names(left_reg),
            old(self).state().holds(right_reg),
            size_index < 4,
        ensures
            result == left_reg,
            final(self).state() == old(self).state().emit(
                Self::instruction_text(
                    Instruction::Divide {
                        left: left_reg,
                        right: right_reg,
                        size_index: size_index as int,
                    },
                ),
            ).release(right_reg),
    ;

    /// Puts a literal in a fresh register.
    fn gen_numeric_literal_instr(
        &mut self,
        primitive_type: &PrimitiveType,
        primitive_value: &PrimitiveValue,
    ) -> (result: Result<Register, GenError>)
        ensures
            match old(self).state().allocate(primitive_type.size()) {
                Ok((state, register)) => {
                    &&& result == Ok::<Register, GenError>(register)
                    &&& final(self).state() == state.emit(
                        Self::instruction_text(
                            Instruction::NumericLiteral {
                                primitive_type: *primitive_type,
                                value: *primitive_value,
                                register,
                            },
                        ),
                    )
                },
                Err(error) => result == Err::<Register, GenError>(error) && final(self).state()
                    == old(self).state(),
            },
    ;

    /// Extends `register` with zeros into a fresh register for a value of
    /// type `primitive_type`; `register` is given back.
    fn gen_widen_instr(
        &mut self,
        register: Register,
        primitive_type: &PrimitiveType,
        src_index: usize,
        dest_index: usize,
    ) -> (result: Result<Register, GenError>)
        requires
            old(self).state().holds(register),
            src_index < 4,
            dest_index < 4,
        ensures
            match old(self).state().allocate(primitive_type.size()) {
                Ok((state, widened)) => {
                    &&& result == Ok::<Register, GenError>(widened)
                    &&& final(self).state() == state.emit(
                        Self::instruction_text(
                            Instruction::Widen {
                                source: register,
                                source_index: src_index as int,
                                result: widened,
                                result_index: dest_index as int,
                            },
                        ),
                    ).release(register)
                },
                Err(error) => result == Err::<Register, GenError>(error) && final(self).state()
                    == old(self).state(),
            },
    ;

    /// Loads a variable or a function parameter into a fresh register.
    fn gen_identifier_instr(&mut self, symbol: &Symbol) -> (result: Result<Register, GenError>)
        ensures
            match identifier_model(
                old(self).state(),
                symbol@,
                Self::parameter_registers(),
                |instruction: Instruction| Self::instruction_text(instruction),
            ) {
                Ok((state, register)) => result == Ok::<Register, GenError>(register) && final(self).state() == state,
                Err(error) => result == Err::<Register, GenError>(error) && final(self).state()
                    == old(self).state(),
            },
    ;

    /// Moves `register` into the parameter register of ordinal `ordinal`.
    fn gen_argument_instr(&mut self, ordinal: usize, register: Register, size_index: usize)
        requires
            old(self).state().names(register),
            size_index < 4,
            ordinal < Self::parameter_registers(),
        ensures
            final(self).state() == old(self).state().emit(
                Self::instruction_text(
                    Instruction::Argument {
                        ordinal: ordinal as int,
                        register,
                        size_index: size_index as int,
                    },
                ),
            ),
    ;

    /// Calls the function `name`.
    fn gen_functioncall_instr(&mut self, name: &String)
        ensures
            final(self).state() == old(self).state().emit(
                Self::instruction_text(Instruction::Call { name: name@ }),
            ),
    ;

    /// Jumps to `label` if `condition` holds zero: the test of an `if`.
    fn gen_if_instr(&mut self, condition: Register, label: i32) -> (result: Result<(), GenError>)
        requires
            old(self).state().names(condition),
        ensures
            match size_index_of(condition.size as int) {
                Ok(size_index) => result is Ok && final(self).state() == old(self).state().emit(
                    Self::instruction_text(
                        Instruction::JumpIfZero {
                            condition,
                            size_index: size_index as int,
                            label: label as int,
                        },
                    ),
                ),
                Err(error) => result == Err::<(), GenError>(error) && final(self).state()
                    == old(self).state(),
            },
    ;

    /// Ends the first branch of an `if`: jumps to `end_label`.
    fn gen_else_instr(&mut self, end_label: i32)
        ensures
            final(self).state() == old(self).state().emit(
                Self::instruction_text(Instruction::SkipElse { end_label: end_label as int }),
            ),
    ;

    /// Jumps to `label` if `condition` holds zero: the test of a `while`.
    fn gen_while_instr(&mut self, condition: Register, label: i32) -> (result: Result<
        (),
        GenError,
    >)
        requires
            old(self).state().names(condition),
        ensures
            match size_index_of(condition.size as int) {
                Ok(size_index) => result is Ok && final(self).state() == old(self).state().emit(
                    Self::instruction_text(
                        Instruction::JumpIfZero {
                            condition,
                            size_index: size_index as int,
                            label: label as int,
                        },
                    ),
                ),
                Err(error) => result == Err::<(), GenError>(error) && final(self).state()
                    == old(self).state(),
            },
    ;

    /// Jumps to `label`.
    fn gen_jump_instr(&mut self, label: i32)
        ensures
            final(self).state() == old(self).state().emit(
                Self::instruction_text(Instruction::Jump { label: label as int }),
            ),
    ;

    /// Places `label`.
    fn gen_label_instr(&mut self, label: i32)
        ensures
            final(self).state() == old(self).state().emit(
                Self::instruction_text(Instruction::Label { label: label as int }),
            ),
    ;

    /// The label and the prologue of the function `symbol`.
    fn gen_function_instr(&mut self, symbol: &Symbol) -> (result: Result<(), GenError>)
        ensures
            if symbol.symbol_type == SymbolType::Function {
                result is Ok && final(self).state() == old(self).state().emit(
                    Self::instruction_text(Instruction::FunctionStart { name: symbol@.name }),
                )
            } else {
                result == Err::<(), GenError>(GenError::NotAFunction) && final(self).state()
                    == old(self).state()
            },
    ;

    /// The epilogue of the function `symbol` and its return.
    fn gen_return_instr(&mut self, symbol: &Symbol) -> (result: Result<(), GenError>)
        ensures
            if symbol.primitive_type == PrimitiveType::Void {
                result is Ok && final(self).state() == old(self).state().emit(
                    Self::instruction_text(Instruction::FunctionEnd),
                )
            } else {
                result == Err::<(), GenError>(GenError::NonVoidFunction) && final(self).state()
                    == old(self).state()
            },
    ;

    /// Whether every scratch register is free.
    fn do_post_check(&self) -> (free: bool)
        ensures
            free == self.state().all_free(),
    ;
}

/// The state and the result register of a binary operation on `left` and
/// `right`. An arithmetic operation leaves its result in `left` and gives
/// `right` back; a comparison leaves it in `right` and gives `left` back.
pub open spec fn binary_model<G: CodeGenerator>(
    state: GenState,
    operation: BinaryOperationType,
    left: Register,
    right: Register,
    size_index: int,
) -> (GenState, Register) {
    match operation {
        BinaryOperationType::Add => (
            state.emit(G::instruction_text(Instruction::Add { left, right, size_index })).release(
                right,
            ),
            left,
        ),
        BinaryOperationType::Subtract => (
            state.emit(
                G::instruction_text(Instruction::Subtract { left, right, size_index }),
            ).release(right),
            left,
        ),
        BinaryOperationType::Multiply => (
            state.emit(
                G::instruction_text(Instruction::Multiply { left, right, size_index }),
            ).release(right),
            left,
        ),
        BinaryOperationType::Divide => (
            state.emit(G::instruction_text(Instruction::Divide { left, right, size_index })).release(
                right,
            ),
            left,
        ),
        _ => (
            state.emit(
                G::instruction_text(
                    Instruction::Comparison { operation, left, right, size_index },
                ),
            ).release(left),
            right,
        ),
    }
}

/// What the walk does for an expression: the state after its code is
/// emitted, and the register that holds its value.
///
/// The operands of a binary operation must be equally wide and unsigned,
/// which is asked before anything is emitted for them; the left one is
/// evaluated first. A widening must be to an unsigned type. Nodes that are
/// no expressions are refused, and nothing is emitted for them.
///
/// A refusal says why the walk stopped and in which state it left the
/// generator: the state of the moment at which it stopped.
pub open spec fn expression_model<G: CodeGenerator>(state: GenState, expression: AstView) -> Result<
    (GenState, Register),
    GenFailure,
>
    decreases expression,
{
    match expression {
        AstView::BinaryOperation(operation, left, right) => {
            let left_type = left.primitive_type();
            let right_type = right.primitive_type();
            if left_type.size() != right_type.size() || !left_type.unsigned()
                || !right_type.unsigned() {
                refusal(state, GenError::OperandMismatch)
            } else {
                match expression_model::<G>(state, *left) {
                    Err(failure) => Err(failure),
                    Ok((after_left, left_register)) => match expression_model::<G>(
                        after_left,
                        *right,
                    ) {
                        Err(failure) => Err(failure),
                        Ok((after_right, right_register)) => match size_index_of(
                            left_type.size(),
                        ) {
                            Err(error) => refusal(after_right, error),
                            Ok(size_index) => Ok(
                                binary_model::<G>(
                                    after_right,
                                    operation,
                                    left_register,
                                    right_register,
                                    size_index as int,
                                ),
                            ),
                        },
                    },
                }
            }
        },
        AstView::NumericLiteral(primitive_type, value) => match state.allocate(
            primitive_type.size(),
        ) {
            Err(error) => refusal(state, error),
            Ok((allocated, register)) => Ok(
                (
                    allocated.emit(
                        G::instruction_text(
                            Instruction::NumericLiteral { primitive_type, value, register },
                        ),
                    ),
                    register,
                ),
            ),
        },
        AstView::Widen(primitive_type, inner) => match expression_model::<G>(state, *inner) {
            Err(failure) => Err(failure),
            Ok((after_inner, source)) => {
                if !primitive_type.unsigned() {
                    refusal(after_inner, GenError::SignExtension)
                } else {
                    match size_index_of(inner.primitive_type().size()) {
                        Err(error) => refusal(after_inner, error),
                        Ok(source_index) => match size_index_of(primitive_type.size()) {
                            Err(error) => refusal(after_inner, error),
                            Ok(result_index) => match after_inner.allocate(primitive_type.size()) {
                                Err(error) => refusal(after_inner, error),
                                Ok((allocated, result)) => Ok(
                                    (
                                        allocated.emit(
                                            G::instruction_text(
                                                Instruction::Widen {
                                                    source,
                                                    source_index: source_index as int,
                                                    result,
                                                    result_index: result_index as int,
                                                },
                                            ),
                                        ).release(source),
                                        result,
                                    ),
                                ),
                            },
                        },
                    }
                }
            },
        },
        AstView::Identifier(symbol) => match identifier_model(
            state,
            symbol,
            G::parameter_registers(),
            |instruction: Instruction| G::instruction_text(instruction),
        ) {
            Err(error) => refusal(state, error),
            Ok(loaded) => Ok(loaded),
        },
        _ => refusal(state, GenError::UnsupportedNode),
    }
}

/// Whether `result`, with the generator left in `after`, is what the model
/// gives for an expression evaluated in `before`: the same register and the
/// same state, in which that register, and no other, is newly in use; or
/// the same error and the same state of the refusal. Either way text was
/// only added at the end and labels were only taken.
pub open spec fn expression_outcome(
    expected: Result<(GenState, Register), GenFailure>,
    result: Result<Register, GenError>,
    before: GenState,
    after: GenState,
) -> bool {
    match expected {
        Ok((state, register)) => {
            &&& result == Ok::<Register, GenError>(register)
            &&& after == state
            &&& before.took(after, register)
            &&& before.grew_into(after)
        },
        Err(failure) => {
            &&& result == Err::<Register, GenError>(failure.error)
            &&& after == failure.state
            &&& !(failure.error is LeakedRegister)
            &&& before.grew_into(after)
        },
    }
}

/// Generates the code of an expression and gives the register that holds
/// its value.
pub fn gen_expression<G: CodeGenerator>(generator: &mut G, expression: &AstNode) -> (result: Result<
    Register,
    GenError,
>)
    ensures
        expression_outcome(
            expression_model::<G>(old(generator).state(), expression@),
            result,
            old(generator).state(),
            final(generator).state(),
        ),
    decreases expression,
{
    let ghost before = generator.state();
    proof {
        generator.lemma_pool_fits();
    }
    match expression {
        AstNode::BinaryOperation(operation_type, left, right) => {
            let left_type = left.get_primitive_type();
            let right_type = right.get_primitive_type();
            if left_type.get_size() != right_type.get_size() || !left_type.is_unsigned()
                || !right_type.is_unsigned() {
                return Err(GenError::OperandMismatch);
            }
            let left_reg = gen_expression(generator, left)?;
            let right_reg = gen_expression(generator, right)?;
            let index = size_to_instruction_index(left_type.get_size())?;
            let result = match operation_type {
                BinaryOperationType::Add => generator.gen_add_instr(left_reg, right_reg, index),
                BinaryOperationType::Subtract => generator.gen_subtract_instr(
                    left_reg,
                    right_reg,
                    index,
                ),
                BinaryOperationType::Multiply => generator.gen_multiply_instr(
                    left_reg,
                    right_reg,
                    index,
                ),
                BinaryOperationType::Divide => generator.gen_divide_instr(
                    left_reg,
                    right_reg,
                    index,
                ),
                _ => generator.gen_comparison_instr(left_reg, right_reg, index, *operation_type),
            };
            proof {
                assert(generator.state().registers =~= before.registers.update(
                    result.index as int,
                    true,
                ));
            }
            Ok(result)
        },
        AstNode::NumericLiteral(primitive_type, value) => {
            proof {
                lemma_first_free(before.registers, 0);
            }
            generator.gen_numeric_literal_instr(primitive_type, value)
        },
        AstNode::Widen(primitive_type, node) => {
            let register = gen_expression(generator, node)?;
            if !primitive_type.is_unsigned() {
                return Err(GenError::SignExtension);
            }
            let src_index = size_to_instruction_index(node.get_primitive_type().get_size())?;
            let dst_index = size_to_instruction_index(primitive_type.get_size())?;
            proof {
                lemma_first_free(generator.state().registers, 0);
            }
            let result = generator.gen_widen_instr(register, primitive_type, src_index, dst_index)?;
            proof {
                assert(generator.state().registers =~= before.registers.update(
                    result.index as int,
                    true,
                ));
            }
            Ok(result)
        },
        AstNode::Identifier(symbol) => {
            proof {
                lemma_first_free(before.registers, 0);
            }
            generator.gen_identifier_instr(symbol)
        },
        _ => Err(GenError::UnsupportedNode),
    }
}

/// What the walk does for an assignment: the value is evaluated, which
/// must be compatible with the variable in the one-sided direction, and
/// stored; its register is given back.
pub open spec fn assignment_model<G: CodeGenerator>(
    state: GenState,
    symbol: SymbolView,
    expression: AstView,
) -> Result<GenState, GenFailure> {
    match expression_model::<G>(state, expression) {
        Err(failure) => Err(failure),
        Ok((evaluated, register)) => {
            if !expression.primitive_type().compatible(symbol.primitive_type, true) {
                refusal(evaluated, GenError::IncompatibleAssignment)
            } else {
                match size_index_of(symbol.primitive_type.size()) {
                    Err(error) => refusal(evaluated, error),
                    Ok(size_index) => Ok(
                        evaluated.emit(
                            G::instruction_text(
                                Instruction::Assignment {
                                    symbol,
                                    register,
                                    size_index: size_index as int,
                                },
                            ),
                        ).release(register),
                    ),
                }
            }
        },
    }
}

/// What the walk does for the arguments of a call from `index` on: each is
/// evaluated and passed in turn, from left to right, and its register is
/// held until the last one is passed.
pub open spec fn arguments_model<G: CodeGenerator>(
    state: GenState,
    arguments: Seq<AstView>,
    index: int,
) -> Result<GenState, GenFailure>
    decreases arguments.len() - index,
{
    if index < 0 || index >= arguments.len() {
        Ok(state)
    } else {
        match size_index_of(arguments[index].primitive_type().size()) {
            Err(error) => refusal(state, error),
            Ok(size_index) => match expression_model::<G>(state, arguments[index]) {
                Err(failure) => Err(failure),
                Ok((evaluated, register)) => match arguments_model::<G>(
                    evaluated.emit(
                        G::instruction_text(
                            Instruction::Argument {
                                ordinal: index,
                                register,
                                size_index: size_index as int,
                            },
                        ),
                    ),
                    arguments,
                    index + 1,
                ) {
                    Err(failure) => Err(failure),
                    Ok(passed) => Ok(passed.release(register)),
                },
            },
        }
    }
}

/// What the walk does for a call: no more arguments than the target has
/// parameter registers, which is asked before anything is emitted; the
/// arguments, then the call itself.
pub open spec fn call_model<G: CodeGenerator>(
    state: GenState,
    name: Seq<char>,
    arguments: Seq<AstView>,
) -> Result<GenState, GenFailure> {
    if arguments.len() > G::parameter_registers() {
        refusal(state, GenError::TooManyArguments)
    } else {
        match arguments_model::<G>(state, arguments, 0) {
            Err(failure) => Err(failure),
            Ok(passed) => Ok(passed.emit(G::instruction_text(Instruction::Call { name }))),
        }
    }
}

/// The start of an `if`: the condition is evaluated, two labels are taken,
/// the first for the `else` branch and the second for the end, and the
/// test jumps to the `else` branch, or to the end where there is none.
/// Gives the state, the register of the condition and the two labels.
pub open spec fn if_test_model<G: CodeGenerator>(
    state: GenState,
    condition: AstView,
    has_else: bool,
) -> Result<(GenState, Register, i32, i32), GenFailure> {
    match expression_model::<G>(state, condition) {
        Err(failure) => Err(failure),
        Ok((evaluated, register)) => match evaluated.label() {
            Err(error) => refusal(evaluated, error),
            Ok((first, else_label)) => match first.label() {
                Err(error) => refusal(first, error),
                Ok((second, end_label)) => match size_index_of(register.size as int) {
                    Err(error) => refusal(second, error),
                    Ok(size_index) => Ok(
                        (
                            second.emit(
                                G::instruction_text(
                                    Instruction::JumpIfZero {
                                        condition: register,
                                        size_index: size_index as int,
                                        label: if has_else {
                                            else_label as int
                                        } else {
                                            end_label as int
                                        },
                                    },
                                ),
                            ),
                            register,
                            else_label,
                            end_label,
                        ),
                    ),
                },
            },
        },
    }
}

/// The start of a `while`: two labels are taken, the first for the start
/// and the second for the end; the start label is placed, the condition is
/// evaluated, and the test jumps to the end. Gives the state, the register
/// of the condition and the two labels.
pub open spec fn while_test_model<G: CodeGenerator>(state: GenState, condition: AstView) -> Result<
    (GenState, Register, i32, i32),
    GenFailure,
> {
    match state.label() {
        Err(error) => refusal(state, error),
        Ok((first, start_label)) => match first.label() {
            Err(error) => refusal(first, error),
            Ok((second, end_label)) => match expression_model::<G>(
                second.emit(
                    G::instruction_text(Instruction::Label { label: start_label as int }),
                ),
                condition,
            ) {
                Err(failure) => Err(failure),
                Ok((evaluated, register)) => match size_index_of(register.size as int) {
                    Err(error) => refusal(evaluated, error),
                    Ok(size_index) => Ok(
                        (
                            evaluated.emit(
                                G::instruction_text(
                                    Instruction::JumpIfZero {
                                        condition: register,
                                        size_index: size_index as int,
                                        label: end_label as int,
                                    },
                                ),
                            ),
                            register,
                            start_label,
                            end_label,
                        ),
                    ),
                },
            },
        },
    }
}

/// What the walk does for a statement: the state after its code is
/// emitted.
///
/// A declaration emits nothing. The register of the condition of an `if`
/// or a `while` is held until the end of the construct. A function must be
/// a function and return nothing. Nodes that are no statements are
/// refused.
pub open spec fn node_model<G: CodeGenerator>(state: GenState, node: AstView) -> Result<
    GenState,
    GenFailure,
>
    decreases node,
{
    match node {
        AstView::Block(children) => block_model::<G>(state, children, 0),
        AstView::VariableDeclaration(_) => Ok(state),
        AstView::Assignment(symbol, expression) => assignment_model::<G>(
            state,
            symbol,
            *expression,
        ),
        AstView::FunctionCall(name, arguments) => call_model::<G>(state, name, arguments),
        AstView::If(condition, body, else_body) => match if_test_model::<G>(
            state,
            *condition,
            else_body is Some,
        ) {
            Err(failure) => Err(failure),
            Ok((tested, register, else_label, end_label)) => match node_model::<G>(
                tested,
                *body,
            ) {
                Err(failure) => Err(failure),
                Ok(after_body) => match else_model::<G>(
                    after_body.emit(
                        G::instruction_text(
                            Instruction::SkipElse { end_label: end_label as int },
                        ),
                    ),
                    else_body,
                    else_label,
                ) {
                    Err(failure) => Err(failure),
                    Ok(after_else) => Ok(
                        after_else.emit(
                            G::instruction_text(Instruction::Label { label: end_label as int }),
                        ).release(register),
                    ),
                },
            },
        },
        AstView::While(condition, body) => match while_test_model::<G>(state, *condition) {
            Err(failure) => Err(failure),
            Ok((tested, register, start_label, end_label)) => match node_model::<G>(
                tested,
                *body,
            ) {
                Err(failure) => Err(failure),
                Ok(after_body) => Ok(
                    after_body.emit(
                        G::instruction_text(Instruction::Jump { label: start_label as int }),
                    ).emit(
                        G::instruction_text(Instruction::Label { label: end_label as int }),
                    ).release(register),
                ),
            },
        },
        AstView::Function(symbol, body) => {
            if symbol.symbol_type != SymbolType::Function {
                refusal(state, GenError::NotAFunction)
            } else {
                match node_model::<G>(
                    state.emit(
                        G::instruction_text(Instruction::FunctionStart { name: symbol.name }),
                    ),
                    *body,
                ) {
                    Err(failure) => Err(failure),
                    Ok(after_body) => {
                        if symbol.primitive_type != PrimitiveType::Void {
                            refusal(after_body, GenError::NonVoidFunction)
                        } else {
                            Ok(after_body.emit(G::instruction_text(Instruction::FunctionEnd)))
                        }
                    },
                }
            }
        },
        _ => refusal(state, GenError::UnsupportedNode),
    }
}

/// What the walk does for the statements of a block from `index` on, one
/// after the other.
pub open spec fn block_model<G: CodeGenerator>(
    state: GenState,
    children: Seq<AstView>,
    index: int,
) -> Result<GenState, GenFailure>
    decreases children, children.len() - index,
{
    if index < 0 || index >= children.len() {
        Ok(state)
    } else {
        match node_model::<G>(state, children[index]) {
            Err(failure) => Err(failure),
            Ok(next) => block_model::<G>(next, children, index + 1),
        }
    }
}

/// What the walk does for a program: the two lines that declare `main`,
/// then the code of the program; in the end every register must be free.
pub open spec fn program_model<G: CodeGenerator>(state: GenState, node: AstView) -> Result<
    GenState,
    GenFailure,
> {
    match node_model::<G>(
        state.emit(G::instruction_text(Instruction::Line { text: "\t.globl\tmain"@ })).emit(
            G::instruction_text(Instruction::Line { text: "\t.type\tmain, @function"@ }),
        ),
        node,
    ) {
        Err(failure) => Err(failure),
        Ok(generated) => {
            if generated.all_free() {
                Ok(generated)
            } else {
                refusal(generated, GenError::LeakedRegister)
            }
        },
    }
}

/// Whether `result`, with the generator left in `after`, is what the model
/// gives for a statement generated in `before`: the same state, in which
/// the registers are in use that were in use before; or the same error and
/// the same state of the refusal. Either way text was only added at the
/// end and labels were only taken.
pub open spec fn node_outcome(
    expected: Result<GenState, GenFailure>,
    result: Result<(), GenError>,
    before: GenState,
    after: GenState,
) -> bool {
    match expected {
        Ok(state) => {
            &&& result is Ok
            &&& after == state
            &&& after.registers == before.registers
            &&& before.grew_into(after)
        },
        Err(failure) => {
            &&& result == Err::<(), GenError>(failure.error)
            &&& after == failure.state
            &&& !(failure.error is LeakedRegister)
            &&& before.grew_into(after)
        },
    }
}

/// Generates the code of the statements of a block, one after the other.
pub fn gen_block<G: CodeGenerator>(generator: &mut G, children: &Vec<AstNode>) -> (result: Result<
    (),
    GenError,
>)
    ensures
        node_outcome(
            block_model::<G>(old(generator).state(), views_of(children@), 0),
            result,
            old(generator).state(),
            final(generator).state(),
        ),
    decreases children, 0int,
{
    let ghost goal = block_model::<G>(generator.state(), views_of(children@), 0);
    let mut i: usize = 0;
    while i < children.len()
        invariant
            i <= children.len(),
            goal == block_model::<G>(old(generator).state(), views_of(children@), 0),
            goal == block_model::<G>(generator.state(), views_of(children@), i as int),
            generator.state().registers == old(generator).state().registers,
            old(generator).state().grew_into(generator.state()),
        decreases children.len() - i,
    {
        gen_node(generator, &children[i])?;
        i += 1;
    }
    Ok(())
}

/// Generates the code of an assignment to `variable`.
pub fn gen_assignment<G: CodeGenerator>(
    generator: &mut G,
    variable: &Symbol,
    expression: &AstNode,
) -> (result: Result<(), GenError>)
    ensures
        node_outcome(
            assignment_model::<G>(old(generator).state(), variable@, expression@),
            result,
            old(generator).state(),
            final(generator).state(),
        ),
{
    let ghost before = generator.state();
    let reg = gen_expression(generator, expression)?;
    let expression_type = expression.get_primitive_type();
    if !expression_type.is_compatible_with(&variable.primitive_type, true) {
        return Err(GenError::IncompatibleAssignment);
    }
    let index = size_to_instruction_index(variable.primitive_type.get_size())?;
    generator.gen_assignment_instr(variable, reg, index);
    generator.free_register(reg);
    proof {
        assert(generator.state().registers =~= before.registers);
    }
    Ok(())
}

/// Generates the code that evaluates and passes the arguments of a call
/// from `index` on.
fn gen_arguments<G: CodeGenerator>(generator: &mut G, params: &Vec<AstNode>, index: usize) -> (result:
    Result<(), GenError>)
    requires
        params.len() <= G::parameter_registers(),
        index <= params.len(),
    ensures
        node_outcome(
            arguments_model::<G>(old(generator).state(), views_of(params@), index as int),
            result,
            old(generator).state(),
            final(generator).state(),
        ),
    decreases params.len() - index,
{
    if index >= params.len() {
        return Ok(());
    }
    let ghost before = generator.state();
    let param = &params[index];
    let instr_index = size_to_instruction_index(param.get_primitive_type().get_size())?;
    let expression_reg = gen_expression(generator, param)?;
    generator.gen_argument_instr(index, expression_reg, instr_index);
    gen_arguments(generator, params, index + 1)?;
    generator.free_register(expression_reg);
    proof {
        assert(generator.state().registers =~= before.registers);
    }
    Ok(())
}

/// Generates the code of a call of `name` with the arguments `params`.
pub fn gen_functioncall<G: CodeGenerator>(
    generator: &mut G,
    name: &String,
    params: &Vec<AstNode>,
) -> (result: Result<(), GenError>)
    ensures
        node_outcome(
            call_model::<G>(old(generator).state(), name@, views_of(params@)),
            result,
            old(generator).state(),
            final(generator).state(),
        ),
{
    if params.len() > generator.max_arguments() {
        return Err(GenError::TooManyArguments);
    }
    gen_arguments(generator, params, 0)?;
    generator.gen_functioncall_instr(name);
    Ok(())
}

/// Whether `result`, with the generator left in `after`, is what the model
/// gives for the start of an `if` or a `while` generated in `before`.
pub open spec fn test_outcome(
    expected: Result<(GenState, Register, i32, i32), GenFailure>,
    result: Result<(Register, i32, i32), GenError>,
    before: GenState,
    after: GenState,
) -> bool {
    match expected {
        Ok((state, register, first, second)) => {
            &&& result == Ok::<(Register, i32, i32), GenError>((register, first, second))
            &&& after == state
            &&& before.took(after, register)
            &&& before.grew_into(after)
        },
        Err(failure) => {
            &&& result == Err::<(Register, i32, i32), GenError>(failure.error)
            &&& after == failure.state
            &&& !(failure.error is LeakedRegister)
            &&& before.grew_into(after)
        },
    }
}

/// Generates the start of an `if`: the condition, the two labels and the
/// test. Gives the register of the condition, the label of the `else`
/// branch and the label of the end.
fn gen_if_test<G: CodeGenerator>(generator: &mut G, condition: &AstNode, has_else: bool) -> (result:
    Result<(Register, i32, i32), GenError>)
    ensures
        test_outcome(
            if_test_model::<G>(old(generator).state(), condition@, has_else),
            result,
            old(generator).state(),
            final(generator).state(),
        ),
{
    let condition_reg = gen_expression(generator, condition)?;
    let else_label = generator.get_label()?;
    let end_label = generator.get_label()?;
    generator.gen_if_instr(
        condition_reg,
        if has_else {
            else_label
        } else {
            end_label
        },
    )?;
    Ok((condition_reg, else_label, end_label))
}

/// Generates the start of a `while`: the two labels, the start label in
/// its place, the condition and the test. Gives the register of the
/// condition, the label of the start and the label of the end.
fn gen_while_test<G: CodeGenerator>(generator: &mut G, condition: &AstNode) -> (result: Result<
    (Register, i32, i32),
    GenError,
>)
    ensures
        test_outcome(
            while_test_model::<G>(old(generator).state(), condition@),
            result,
            old(generator).state(),
            final(generator).state(),
        ),
{
    let start_label = generator.get_label()?;
    let end_label = generator.get_label()?;
    generator.gen_label_instr(start_label);
    let ghost started = generator.state();
    let condition_reg = gen_expression(generator, condition)?;
    let ghost evaluated = generator.state();
    generator.gen_while_instr(condition_reg, end_label)?;
    proof {
        lemma_grew_into_transitive(old(generator).state(), started, evaluated);
    }
    Ok((condition_reg, start_label, end_label))
}

/// What the walk does for the `else` branch of an `if`, where there is
/// one: the label of the branch is placed and the branch is generated.
pub open spec fn else_model<G: CodeGenerator>(
    state: GenState,
    else_body: Option<Box<AstView>>,
    else_label: i32,
) -> Result<GenState, GenFailure>
    decreases else_body,
{
    match else_body {
        None => Ok(state),
        Some(else_node) => node_model::<G>(
            state.emit(G::instruction_text(Instruction::Label { label: else_label as int })),
            *else_node,
        ),
    }
}

/// The view of the `else` branch of an `if`.
pub open spec fn else_view(else_code: Option<Box<AstNode>>) -> Option<Box<AstView>> {
    match else_code {
        Some(node) => Some(Box::new(node@)),
        None => None,
    }
}

/// Generates the code of the `else` branch of an `if`, where there is one.
fn gen_else<G: CodeGenerator>(
    generator: &mut G,
    else_code: &Option<Box<AstNode>>,
    else_label: i32,
) -> (result: Result<(), GenError>)
    ensures
        node_outcome(
            else_model::<G>(old(generator).state(), else_view(*else_code), else_label),
            result,
            old(generator).state(),
            final(generator).state(),
        ),
    decreases else_code, 3int,
{
    match else_code {
        Some(else_node) => {
            generator.gen_label_instr(else_label);
            gen_node(generator, else_node)?;
            Ok(())
        },
        None => Ok(()),
    }
}

/// Generates the code of an `if`.
fn gen_if<G: CodeGenerator>(generator: &mut G, node: &AstNode) -> (result: Result<(), GenError>)
    requires
        node is If,
    ensures
        node_outcome(
            node_model::<G>(old(generator).state(), node@),
            result,
            old(generator).state(),
            final(generator).state(),
        ),
    decreases node, 1int,
{
    let ghost before = generator.state();
    match node {
        AstNode::If(condition, code, else_code) => {
            let (condition_reg, else_label, end_label) = gen_if_test(
                generator,
                condition,
                else_code.is_some(),
            )?;
            let ghost tested = generator.state();
            gen_node(generator, code)?;
            let ghost after_body = generator.state();
            generator.gen_else_instr(end_label);
            let ghost skipped = generator.state();
            gen_else(generator, else_code, else_label)?;
            let ghost after_else = generator.state();
            generator.gen_label_instr(end_label);
            generator.free_register(condition_reg);
            proof {
                assert(generator.state().registers =~= before.registers);
                lemma_grew_into_transitive(before, tested, after_body);
                lemma_grew_into_transitive(before, skipped, after_else);
            }
            Ok(())
        },
        _ => Err(GenError::UnsupportedNode),
    }
}

/// Generates the code of a `while`.
fn gen_while<G: CodeGenerator>(generator: &mut G, node: &AstNode) -> (result: Result<
    (),
    GenError,
>)
    requires
        node is While,
    ensures
        node_outcome(
            node_model::<G>(old(generator).state(), node@),
            result,
            old(generator).state(),
            final(generator).state(),
        ),
    decreases node, 1int,
{
    let ghost before = generator.state();
    match node {
        AstNode::While(condition, code) => {
            let (condition_reg, start_label, end_label) = gen_while_test(generator, condition)?;
            gen_node(generator, code)?;
            generator.gen_jump_instr(start_label);
            generator.gen_label_instr(end_label);
            generator.free_register(condition_reg);
            proof {
                assert(generator.state().registers =~= before.registers);
            }
            Ok(())
        },
        _ => Err(GenError::UnsupportedNode),
    }
}

/// Generates the code of the function `symbol` with the body `code`.
pub fn gen_function<G: CodeGenerator>(generator: &mut G, symbol: &Symbol, code: &AstNode) -> (result:
    Result<(), GenError>)
    ensures
        node_outcome(
            node_model::<G>(
                old(generator).state(),
                AstView::Function(symbol@, Box::new(code@)),
            ),
            result,
            old(generator).state(),
            final(generator).state(),
        ),
    decreases code, 3int,
{
    generator.gen_function_instr(symbol)?;
    gen_node(generator, code)?;
    let ghost after_body = generator.state();
    generator.gen_return_instr(symbol)?;
    proof {
        lemma_grew_into_transitive(old(generator).state(), after_body, generator.state());
    }
    Ok(())
}

/// Generates the code of a statement.
pub fn gen_node<G: CodeGenerator>(generator: &mut G, node: &AstNode) -> (result: Result<
    (),
    GenError,
>)
    ensures
        node_outcome(
            node_model::<G>(old(generator).state(), node@),
            result,
            old(generator).state(),
            final(generator).state(),
        ),
    decreases node, 2int,
{
    match node {
        AstNode::Block(children) => {
            proof {
                AstNode::lemma_model_of_block(*children);
            }
            gen_block(generator, children)
        },
        AstNode::VariableDeclaration(_) => Ok(()),
        AstNode::Assignment(var, expression) => gen_assignment(generator, var, expression),
        AstNode::FunctionCall(name, params) => {
            proof {
                AstNode::lemma_model_of_call(*name, *params);
            }
            gen_functioncall(generator, name, params)
        },
        AstNode::If(_, _, _) => gen_if(generator, node),
        AstNode::While(_, _) => gen_while(generator, node),
        AstNode::Function(symbol, code) => gen_function(generator, symbol, code),
        _ => Err(GenError::UnsupportedNode),
    }
}

/// Generates the code of a program. A generator whose registers are all
/// free before never reports a leaked register: the walk gives back every
/// register that it takes. Where the walk refuses the tree, the generator
/// is left as it was at the point of the refusal.
pub fn gen<G: CodeGenerator>(generator: &mut G, node: &AstNode) -> (result: Result<(), GenError>)
    ensures
        match program_model::<G>(old(generator).state(), node@) {
            Ok(state) => result is Ok && final(generator).state() == state,
            Err(failure) => result == Err::<(), GenError>(failure.error) && final(generator).state()
                == failure.state,
        },
        old(generator).state().all_free() ==> result != Err::<(), GenError>(
            GenError::LeakedRegister,
        ),
{
    generator.write("\t.globl\tmain");
    generator.write("\t.type\tmain, @function");
    gen_node(generator, node)?;
    if !generator.do_post_check() {
        return Err(GenError::LeakedRegister);
    }
    Ok(())
}

} // verus!
