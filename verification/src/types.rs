//! The primitive types of the language: their catalogue, their width and
//! signedness, and the rules by which one may stand where another is wanted.

use vstd::prelude::*;
use crate::text::str_equals;

verus! {

/// A primitive type. `Unknown` is only ever used to report that a node has
/// no type.
#[derive(Debug, Clone, Copy, PartialEq, Eq, Structural)]
pub enum PrimitiveType {
    Int8,
    Int16,
    Int32,
    Int64,
    UInt8,
    UInt16,
    UInt32,
    UInt64,
    Bool,
    Unknown,
    Void,
}

/// The raw bits of a literal. What they mean is decided by the
/// `PrimitiveType` that the value is paired with.
#[derive(Debug, Clone, Copy, PartialEq, Eq, Structural)]
pub struct PrimitiveValue {
    pub bits: u64,
}

impl PrimitiveValue {
    /// The bits read as an unsigned number.
    pub open spec fn unsigned(self) -> int {
        self.bits as int
    }

    /// The bits read as a two's complement signed number.
    pub open spec fn signed(self) -> int {
        if self.bits < 0x8000_0000_0000_0000 {
            self.bits as int
        } else {
            self.bits - 0x1_0000_0000_0000_0000
        }
    }

    /// The bits read as an unsigned number.
    pub fn as_u64(&self) -> (value: u64)
        ensures
            value == self.unsigned(),
    {
        self.bits
    }

    /// The bits read as a two's complement signed number.
    pub fn as_i64(&self) -> (value: i64)
        ensures
            value == self.signed(),
    {
        if self.bits < 0x8000_0000_0000_0000 {
            self.bits as i64
        } else {
            let below: u64 = u64::MAX - self.bits;
            -(below as i64) - 1
        }
    }
}

impl PrimitiveType {
    /// Width in bits: 8, 16, 32 or 64 for the numeric types, 8 for `Bool`,
    /// 0 for `Void` and `Unknown`.
    pub open spec fn size(self) -> int {
        match self {
            PrimitiveType::Int8 | PrimitiveType::UInt8 | PrimitiveType::Bool => 8,
            PrimitiveType::Int16 | PrimitiveType::UInt16 => 16,
            PrimitiveType::Int32 | PrimitiveType::UInt32 => 32,
            PrimitiveType::Int64 | PrimitiveType::UInt64 => 64,
            PrimitiveType::Unknown | PrimitiveType::Void => 0,
        }
    }

    /// Whether the type is one of the signed integer types.
    pub open spec fn signed(self) -> bool {
        self is Int8 || self is Int16 || self is Int32 || self is Int64
    }

    /// Whether the type is one of the unsigned integer types.
    pub open spec fn unsigned(self) -> bool {
        self is UInt8 || self is UInt16 || self is UInt32 || self is UInt64
    }

    /// Whether a value of type `self` may stand where `dest` is wanted.
    ///
    /// Equal types always may. Otherwise `Bool` mixes with nothing, and a
    /// signed value never becomes unsigned. In the one-sided direction
    /// (assignment, argument passing) the destination must then be strictly
    /// wider. In the two-sided direction (the operands of an operator) an
    /// unsigned value does not meet a signed one either, and widths are
    /// left to the caller.
    pub open spec fn compatible(self, dest: PrimitiveType, one_sided: bool) -> bool {
        if self == dest {
            true
        } else if (self is Bool) != (dest is Bool) {
            false
        } else if self.signed() && dest.unsigned() {
            false
        } else if one_sided {
            dest.size() > self.size()
        } else {
            !(self.unsigned() && dest.signed())
        }
    }

    /// The type of the same width and the other signedness; types that are
    /// neither signed nor unsigned stay as they are.
    pub open spec fn sign_switched(self) -> PrimitiveType {
        match self {
            PrimitiveType::Int8 => PrimitiveType::UInt8,
            PrimitiveType::Int16 => PrimitiveType::UInt16,
            PrimitiveType::Int32 => PrimitiveType::UInt32,
            PrimitiveType::Int64 => PrimitiveType::UInt64,
            PrimitiveType::UInt8 => PrimitiveType::Int8,
            PrimitiveType::UInt16 => PrimitiveType::Int16,
            PrimitiveType::UInt32 => PrimitiveType::Int32,
            PrimitiveType::UInt64 => PrimitiveType::Int64,
            other => other,
        }
    }

    /// The narrowest unsigned type that holds the literal `value`.
    pub open spec fn of_literal(value: u64) -> PrimitiveType {
        if value <= 0xff {
            PrimitiveType::UInt8
        } else if value <= 0xffff {
            PrimitiveType::UInt16
        } else if value <= 0xffff_ffff {
            PrimitiveType::UInt32
        } else {
            PrimitiveType::UInt64
        }
    }

    /// The type that a type keyword names, if it names one.
    pub open spec fn named(name: Seq<char>) -> Option<PrimitiveType> {
        if name == "i8"@ {
            Some(PrimitiveType::Int8)
        } else if name == "i16"@ {
            Some(PrimitiveType::Int16)
        } else if name == "i32"@ {
            Some(PrimitiveType::Int32)
        } else if name == "i64"@ {
            Some(PrimitiveType::Int64)
        } else if name == "u8"@ {
            Some(PrimitiveType::UInt8)
        } else if name == "u16"@ {
            Some(PrimitiveType::UInt16)
        } else if name == "u32"@ {
            Some(PrimitiveType::UInt32)
        } else if name == "u64"@ {
            Some(PrimitiveType::UInt64)
        } else if name == "bool"@ {
            Some(PrimitiveType::Bool)
        } else {
            None
        }
    }

    /// Width in bits; 0 for `Void` and `Unknown`.
    pub fn get_size(&self) -> (size: i32)
        ensures
            size == self.size(),
    {
        match self {
            PrimitiveType::Int8 => 8,
            PrimitiveType::Int16 => 16,
            PrimitiveType::Int32 => 32,
            PrimitiveType::Int64 => 64,
            PrimitiveType::UInt8 => 8,
            PrimitiveType::UInt16 => 16,
            PrimitiveType::UInt32 => 32,
            PrimitiveType::UInt64 => 64,
            PrimitiveType::Bool => 8,
            _ => 0,
        }
    }

    /// Whether the type is one of the signed integer types.
    pub fn is_signed(&self) -> (signed: bool)
        ensures
            signed == self.signed(),
    {
        match self {
            PrimitiveType::Int8
            | PrimitiveType::Int16
            | PrimitiveType::Int32
            | PrimitiveType::Int64 => true,
            _ => false,
        }
    }

    /// Whether the type is one of the unsigned integer types.
    pub fn is_unsigned(&self) -> (unsigned: bool)
        ensures
            unsigned == self.unsigned(),
    {
        match self {
            PrimitiveType::UInt8
            | PrimitiveType::UInt16
            | PrimitiveType::UInt32
            | PrimitiveType::UInt64 => true,
            _ => false,
        }
    }

    /// Whether a value of this type may stand where `dest_type` is wanted:
    /// in an assignment or as an argument where `one_sided` is set, as an
    /// operand beside a `dest_type` operand where it is not.
    pub fn is_compatible_with(&self, dest_type: &PrimitiveType, one_sided: bool) -> (compatible:
        bool)
        ensures
            compatible == self.compatible(*dest_type, one_sided),
    {
        if *self == *dest_type {
            return true;
        }
        let self_bool = *self == PrimitiveType::Bool;
        let dest_bool = *dest_type == PrimitiveType::Bool;
        if self_bool != dest_bool {
            return false;
        }
        if self.is_signed() && dest_type.is_unsigned() {
            return false;
        }
        if !one_sided {
            if self.is_unsigned() && dest_type.is_signed() {
                return false;
            }
            return true;
        }
        dest_type.get_size() > self.get_size()
    }

    /// The type of the same width and the other signedness.
    pub fn switch_sign(&self) -> (switched: PrimitiveType)
        ensures
            switched == self.sign_switched(),
    {
        match self {
            PrimitiveType::Int8 => PrimitiveType::UInt8,
            PrimitiveType::Int16 => PrimitiveType::UInt16,
            PrimitiveType::Int32 => PrimitiveType::UInt32,
            PrimitiveType::Int64 => PrimitiveType::UInt64,
            PrimitiveType::UInt8 => PrimitiveType::Int8,
            PrimitiveType::UInt16 => PrimitiveType::Int16,
            PrimitiveType::UInt32 => PrimitiveType::Int32,
            PrimitiveType::UInt64 => PrimitiveType::Int64,
            PrimitiveType::Bool => PrimitiveType::Bool,
            PrimitiveType::Unknown => PrimitiveType::Unknown,
            PrimitiveType::Void => PrimitiveType::Void,
        }
    }

    /// The type of an integer literal: the narrowest unsigned type that
    /// holds it.
    pub fn for_literal(value: u64) -> (primitive_type: PrimitiveType)
        ensures
            primitive_type == Self::of_literal(value),
            value <= 255 ==> primitive_type == PrimitiveType::UInt8,
            256 <= value <= 65535 ==> primitive_type == PrimitiveType::UInt16,
            65536 <= value <= 4294967295 ==> primitive_type == PrimitiveType::UInt32,
            value > 4294967295 ==> primitive_type == PrimitiveType::UInt64,
    {
        if value > 0xffff_ffff {
            PrimitiveType::UInt64
        } else if value > 0xffff {
            PrimitiveType::UInt32
        } else if value > 0xff {
            PrimitiveType::UInt16
        } else {
            PrimitiveType::UInt8
        }
    }
}

impl std::str::FromStr for PrimitiveType {
    type Err = ();

    /// The type that a type keyword names.
    fn from_str(s: &str) -> (parsed: Result<PrimitiveType, ()>)
        ensures
            parsed == match PrimitiveType::named(s@) {
                Some(primitive_type) => Ok::<PrimitiveType, ()>(primitive_type),
                None => Err(()),
            },
    {
        if str_equals(s, "i8") {
            Ok(PrimitiveType::Int8)
        } else if str_equals(s, "i16") {
            Ok(PrimitiveType::Int16)
        } else if str_equals(s, "i32") {
            Ok(PrimitiveType::Int32)
        } else if str_equals(s, "i64") {
            Ok(PrimitiveType::Int64)
        } else if str_equals(s, "u8") {
            Ok(PrimitiveType::UInt8)
        } else if str_equals(s, "u16") {
            Ok(PrimitiveType::UInt16)
        } else if str_equals(s, "u32") {
            Ok(PrimitiveType::UInt32)
        } else if str_equals(s, "u64") {
            Ok(PrimitiveType::UInt64)
        } else if str_equals(s, "bool") {
            Ok(PrimitiveType::Bool)
        } else {
            Err(())
        }
    }
}

/// Every type is compatible with itself in both directions; `Bool` is
/// compatible with no other type, whichever side it stands on; and a signed
/// type is never compatible with an unsigned destination.
pub proof fn lemma_compatibility_laws(t: PrimitiveType, x: PrimitiveType, one_sided: bool)
    ensures
        t.compatible(t, one_sided),
        x != PrimitiveType::Bool ==> !PrimitiveType::Bool.compatible(x, one_sided),
        x != PrimitiveType::Bool ==> !x.compatible(PrimitiveType::Bool, one_sided),
        t.signed() && x.unsigned() ==> !t.compatible(x, one_sided),
{
}

/// One-sided compatibility between different types only ever widens.
pub proof fn lemma_one_sided_widens(src: PrimitiveType, dest: PrimitiveType)
    requires
        src.compatible(dest, true),
        src != dest,
    ensures
        dest.size() > src.size(),
{
}

} // verus!
