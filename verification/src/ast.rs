//! The syntax tree that the parser builds and the code generator walks.

use vstd::prelude::*;
use crate::scope::{Symbol, SymbolView};
use crate::types::{PrimitiveType, PrimitiveValue};

verus! {

/// The binary operators: the four of arithmetic and the six comparisons.
#[derive(Debug, Clone, Copy, PartialEq, Eq, Structural)]
pub enum BinaryOperationType {
    Add,
    Subtract,
    Multiply,
    Divide,
    Equals,
    NotEquals,
    LessThan,
    LessThanOrEqual,
    GreaterThan,
    GreaterThanOrEqual,
}

impl BinaryOperationType {
    /// Whether the operator compares its operands, and so yields a `Bool`.
    pub open spec fn is_comparison(self) -> bool {
        !(self is Add || self is Subtract || self is Multiply || self is Divide)
    }
}

/// The unary operators. The grammar writes none of them yet.
#[derive(Debug, Clone, Copy, PartialEq, Eq, Structural)]
pub enum UnaryOperationType {
    Negate,
}

/// A node of the syntax tree. Every node owns its children.
#[derive(Debug, PartialEq, Eq)]
pub enum AstNode {
    BinaryOperation(BinaryOperationType, Box<AstNode>, Box<AstNode>),
    UnaryOperation(UnaryOperationType, Box<AstNode>),
    NumericLiteral(PrimitiveType, PrimitiveValue),
    VariableDeclaration(Symbol),
    Assignment(Symbol, Box<AstNode>),
    FunctionCall(String, Vec<AstNode>),
    Widen(PrimitiveType, Box<AstNode>),
    Identifier(Symbol),
    Function(Symbol, Box<AstNode>),
    If(Box<AstNode>, Box<AstNode>, Option<Box<AstNode>>),
    While(Box<AstNode>, Box<AstNode>),
    Block(Vec<AstNode>),
}

/// The mathematical value of an `AstNode`.
pub enum AstView {
    BinaryOperation(BinaryOperationType, Box<AstView>, Box<AstView>),
    UnaryOperation(UnaryOperationType, Box<AstView>),
    NumericLiteral(PrimitiveType, PrimitiveValue),
    VariableDeclaration(SymbolView),
    Assignment(SymbolView, Box<AstView>),
    FunctionCall(Seq<char>, Seq<AstView>),
    Widen(PrimitiveType, Box<AstView>),
    Identifier(SymbolView),
    Function(SymbolView, Box<AstView>),
    If(Box<AstView>, Box<AstView>, Option<Box<AstView>>),
    While(Box<AstView>, Box<AstView>),
    Block(Seq<AstView>),
}

impl AstView {
    /// The type of the value that an expression node yields. A comparison
    /// yields `Bool`, an arithmetic operation the wider of its operand
    /// types (the right one when they are equally wide), a negation the
    /// operand's type with the other signedness. Statements have no type:
    /// they give `Unknown`.
    pub open spec fn primitive_type(self) -> PrimitiveType
        decreases self,
    {
        match self {
            AstView::BinaryOperation(operation, left, right) => {
                if operation.is_comparison() {
                    PrimitiveType::Bool
                } else if left.primitive_type().size() > right.primitive_type().size() {
                    left.primitive_type()
                } else {
                    right.primitive_type()
                }
            },
            AstView::NumericLiteral(primitive_type, _) => primitive_type,
            AstView::Widen(primitive_type, _) => primitive_type,
            AstView::Identifier(symbol) => symbol.primitive_type,
            AstView::UnaryOperation(_, operand) => operand.primitive_type().sign_switched(),
            _ => PrimitiveType::Unknown,
        }
    }

    /// Whether the tree is well typed: the two operands of every binary
    /// operation are equally wide, and the condition of every `if` and of
    /// every `while` is a `Bool`.
    pub open spec fn well_typed(self) -> bool
        decreases self,
    {
        match self {
            AstView::BinaryOperation(_, left, right) => {
                &&& left.primitive_type().size() == right.primitive_type().size()
                &&& left.well_typed()
                &&& right.well_typed()
            },
            AstView::UnaryOperation(_, operand) => operand.well_typed(),
            AstView::NumericLiteral(_, _) => true,
            AstView::VariableDeclaration(_) => true,
            AstView::Assignment(_, expression) => expression.well_typed(),
            AstView::FunctionCall(_, arguments) => forall|i: int|
                0 <= i < arguments.len() ==> (#[trigger] arguments[i]).well_typed(),
            AstView::Widen(_, expression) => expression.well_typed(),
            AstView::Identifier(_) => true,
            AstView::Function(_, body) => body.well_typed(),
            AstView::If(condition, body, else_body) => {
                &&& condition.primitive_type() == PrimitiveType::Bool
                &&& condition.well_typed()
                &&& body.well_typed()
                &&& match else_body {
                    Some(node) => node.well_typed(),
                    None => true,
                }
            },
            AstView::While(condition, body) => {
                &&& condition.primitive_type() == PrimitiveType::Bool
                &&& condition.well_typed()
                &&& body.well_typed()
            },
            AstView::Block(children) => forall|i: int|
                0 <= i < children.len() ==> (#[trigger] children[i]).well_typed(),
        }
    }
}

/// The views of a sequence of nodes.
pub open spec fn views_of(nodes: Seq<AstNode>) -> Seq<AstView> {
    Seq::new(nodes.len(), |i: int| nodes[i]@)
}

impl AstNode {
    /// The mathematical value of the node, child by child.
    pub open spec fn model(&self) -> AstView
        decreases self,
    {
        match self {
            AstNode::BinaryOperation(operation, left, right) => AstView::BinaryOperation(
                *operation,
                Box::new(left.model()),
                Box::new(right.model()),
            ),
            AstNode::UnaryOperation(operation, operand) => AstView::UnaryOperation(
                *operation,
                Box::new(operand.model()),
            ),
            AstNode::NumericLiteral(primitive_type, value) => AstView::NumericLiteral(
                *primitive_type,
                *value,
            ),
            AstNode::VariableDeclaration(symbol) => AstView::VariableDeclaration(symbol@),
            AstNode::Assignment(symbol, expression) => AstView::Assignment(
                symbol@,
                Box::new(expression.model()),
            ),
            AstNode::FunctionCall(name, arguments) => AstView::FunctionCall(
                name@,
                Seq::new(
                    arguments.len() as nat,
                    |i: int|
                        if 0 <= i < arguments.len() {
                            arguments[i].model()
                        } else {
                            AstView::Block(Seq::empty())
                        },
                ),
            ),
            AstNode::Widen(primitive_type, expression) => AstView::Widen(
                *primitive_type,
                Box::new(expression.model()),
            ),
            AstNode::Identifier(symbol) => AstView::Identifier(symbol@),
            AstNode::Function(symbol, body) => AstView::Function(symbol@, Box::new(body.model())),
            AstNode::If(condition, body, else_body) => AstView::If(
                Box::new(condition.model()),
                Box::new(body.model()),
                match else_body {
                    Some(node) => Some(Box::new(node.model())),
                    None => None,
                },
            ),
            AstNode::While(condition, body) => AstView::While(
                Box::new(condition.model()),
                Box::new(body.model()),
            ),
            AstNode::Block(children) => AstView::Block(
                Seq::new(
                    children.len() as nat,
                    |i: int|
                        if 0 <= i < children.len() {
                            children[i].model()
                        } else {
                            AstView::Block(Seq::empty())
                        },
                ),
            ),
        }
    }

    /// The views of the arguments of a call are the views of its nodes.
    pub proof fn lemma_model_of_call(name: String, arguments: Vec<AstNode>)
        ensures
            AstNode::FunctionCall(name, arguments)@ == AstView::FunctionCall(
                name@,
                views_of(arguments@),
            ),
    {
        assert(AstNode::FunctionCall(name, arguments).model()->FunctionCall_1 =~= views_of(
            arguments@,
        ));
    }

    /// The views of the children of a block are the views of its nodes.
    pub proof fn lemma_model_of_block(children: Vec<AstNode>)
        ensures
            AstNode::Block(children)@ == AstView::Block(views_of(children@)),
    {
        assert(AstNode::Block(children).model()->Block_0 =~= views_of(children@));
    }

    /// The type of the value that the node yields; `Unknown` for a node
    /// that yields none.
    pub fn get_primitive_type(&self) -> (primitive_type: PrimitiveType)
        ensures
            primitive_type == self@.primitive_type(),
        decreases self,
    {
        match self {
            AstNode::BinaryOperation(op_type, left, right) => match op_type {
                BinaryOperationType::Equals
                | BinaryOperationType::NotEquals
                | BinaryOperationType::LessThan
                | BinaryOperationType::LessThanOrEqual
                | BinaryOperationType::GreaterThan
                | BinaryOperationType::GreaterThanOrEqual => PrimitiveType::Bool,
                _ => {
                    let left_type = left.get_primitive_type();
                    let right_type = right.get_primitive_type();
                    if left_type.get_size() > right_type.get_size() {
                        left_type
                    } else {
                        right_type
                    }
                },
            },
            AstNode::NumericLiteral(primitive_type, _) => *primitive_type,
            AstNode::Widen(primitive_type, _) => *primitive_type,
            AstNode::Identifier(symbol) => symbol.primitive_type,
            AstNode::UnaryOperation(op_type, node) => match op_type {
                UnaryOperationType::Negate => node.get_primitive_type().switch_sign(),
            },
            _ => PrimitiveType::Unknown,
        }
    }
}

impl View for AstNode {
    type V = AstView;

    open spec fn view(&self) -> AstView {
        self.model()
    }
}

} // verus!
