//! The binding strengths of the binary operators.

use vstd::prelude::*;
use vstd::std_specs::cmp::PartialOrdSpecImpl;
use std::cmp::Ordering;

verus! {

/// How tightly an operator binds. Multiplication and division bind
/// tightest, then addition and subtraction, then the relational operators,
/// then equality and inequality; `Zero` binds looser than any operator.
#[derive(Debug, PartialEq, Eq, Clone, Copy, Structural)]
pub enum OperatorPrecedence {
    MulDiv,
    AddSubtract,
    LessGreaterThan,
    EqualsNotEquals,
    Zero,
}

impl OperatorPrecedence {
    /// The binding strength as a number: the greater, the tighter.
    pub open spec fn level(self) -> int {
        match self {
            OperatorPrecedence::MulDiv => 200,
            OperatorPrecedence::AddSubtract => 150,
            OperatorPrecedence::LessGreaterThan => 100,
            OperatorPrecedence::EqualsNotEquals => 50,
            OperatorPrecedence::Zero => 0,
        }
    }

    /// The binding strength as a number: the greater, the tighter.
    pub fn value(&self) -> (level: u8)
        ensures
            level == self.level(),
    {
        match self {
            OperatorPrecedence::MulDiv => 200,
            OperatorPrecedence::AddSubtract => 150,
            OperatorPrecedence::LessGreaterThan => 100,
            OperatorPrecedence::EqualsNotEquals => 50,
            OperatorPrecedence::Zero => 0,
        }
    }
}

impl PartialOrd for OperatorPrecedence {
    /// Orders two strengths by their level: the tighter one is the greater.
    fn partial_cmp(&self, other: &Self) -> (ordering: Option<Ordering>) {
        let left = self.value();
        let right = other.value();
        if left < right {
            Some(Ordering::Less)
        } else if left > right {
            Some(Ordering::Greater)
        } else {
            Some(Ordering::Equal)
        }
    }
}

impl PartialOrdSpecImpl for OperatorPrecedence {
    open spec fn obeys_partial_cmp_spec() -> bool {
        true
    }

    open spec fn partial_cmp_spec(&self, other: &Self) -> Option<Ordering> {
        if self.level() < other.level() {
            Some(Ordering::Less)
        } else if self.level() > other.level() {
            Some(Ordering::Greater)
        } else {
            Some(Ordering::Equal)
        }
    }
}

} // verus!
