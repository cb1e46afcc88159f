//! What the front end knows of how a value lies in memory, as far as
//! lowering reads it, and the two forms in which it hands values over: a
//! place in memory, and an operand.

use crate::ir::{RValue, Type};
use vstd::prelude::*;

verus! {

/// A machine-level scalar.
#[derive(Clone, Copy, Debug, PartialEq, Eq, Structural)]
pub enum Primitive {
    Int { bytes: u64, signed: bool },
    Float { bytes: u64 },
    Pointer,
}

/// A scalar with the inclusive range of the values that it takes.
#[derive(Clone, Copy, Debug, PartialEq, Eq, Structural)]
pub struct Scalar {
    pub value: Primitive,
    pub valid_start: u128,
    pub valid_end: u128,
}

impl Scalar {
    /// A boolean: an unsigned byte that is 0 or 1.
    pub open spec fn spec_is_bool(self) -> bool {
        self.value == (Primitive::Int { bytes: 1, signed: false }) && self.valid_start == 0
            && self.valid_end == 1
    }

    pub fn is_bool(&self) -> (r: bool)
        ensures
            r == self.spec_is_bool(),
    {
        let is_byte = match self.value {
            Primitive::Int { bytes, signed } => bytes == 1 && !signed,
            _ => false,
        };
        is_byte && self.valid_start == 0 && self.valid_end == 1
    }
}

/// How a value is passed around.
#[derive(Clone, Copy, Debug, PartialEq, Eq, Structural)]
pub enum Abi {
    Uninhabited,
    Scalar { scalar: Scalar },
    ScalarPair { a: Scalar, b: Scalar },
    Vector,
    Aggregate { sized: bool },
}

/// The layout of a type: its size in bytes, how its values are passed, and
/// the target type of a value of it.
#[derive(Clone, Copy, Debug, PartialEq, Eq, Structural)]
pub struct Layout {
    pub size: u64,
    pub abi: Abi,
    pub ty: Type,
}

impl Layout {
    /// A type whose size is known only when the code runs.
    pub open spec fn spec_is_unsized(self) -> bool {
        self.abi == (Abi::Aggregate { sized: false })
    }

    pub fn is_unsized(&self) -> (r: bool)
        ensures
            r == self.spec_is_unsized(),
    {
        match self.abi {
            Abi::Aggregate { sized } => !sized,
            _ => false,
        }
    }

    /// A type whose values take no space: an uninhabited type or a sized
    /// aggregate of size zero.
    pub open spec fn spec_is_zst(self) -> bool {
        match self.abi {
            Abi::Uninhabited => self.size == 0,
            Abi::Aggregate { sized } => sized && self.size == 0,
            _ => false,
        }
    }

    pub fn is_zst(&self) -> (r: bool)
        ensures
            r == self.spec_is_zst(),
    {
        match self.abi {
            Abi::Uninhabited => self.size == 0,
            Abi::Aggregate { sized } => sized && self.size == 0,
            _ => false,
        }
    }

    /// A type whose values are handed over as one target value: a scalar,
    /// a vector, or a type whose values take no space.
    pub open spec fn spec_is_gcc_immediate(self) -> bool {
        match self.abi {
            Abi::Scalar { .. } | Abi::Vector => true,
            Abi::ScalarPair { .. } => false,
            _ => self.spec_is_zst(),
        }
    }

    pub fn is_gcc_immediate(&self) -> (r: bool)
        ensures
            r == self.spec_is_gcc_immediate(),
    {
        match self.abi {
            Abi::Scalar { .. } => true,
            Abi::Vector => true,
            Abi::ScalarPair { .. } => false,
            Abi::Uninhabited => self.is_zst(),
            Abi::Aggregate { .. } => self.is_zst(),
        }
    }

    /// Whether a value of the type is a boolean scalar.
    pub open spec fn spec_is_bool(self) -> bool {
        self.abi matches Abi::Scalar { scalar } && scalar.spec_is_bool()
    }

    pub fn is_bool(&self) -> (r: bool)
        ensures
            r == self.spec_is_bool(),
    {
        match self.abi {
            Abi::Scalar { scalar } => scalar.is_bool(),
            _ => false,
        }
    }
}

/// A place in memory: a pointer to it, for an unsized place what completes
/// the pointer, the layout of what lies there, and its alignment in bytes.
#[derive(Clone, Copy, Debug, PartialEq, Eq, Structural)]
pub struct PlaceRef {
    pub llval: RValue,
    pub llextra: Option<RValue>,
    pub layout: Layout,
    pub align: u64,
}

/// The value of an operand: behind a pointer, as one target value, or as a
/// pair of them.
#[derive(Clone, Copy, Debug, PartialEq, Eq, Structural)]
pub enum OperandValue {
    Ref { ptr: RValue, extra: Option<RValue>, align: u64 },
    Immediate { value: RValue },
    Pair { a: RValue, b: RValue },
}

/// An operand: its value and the layout of its type.
#[derive(Clone, Copy, Debug, PartialEq, Eq, Structural)]
pub struct OperandRef {
    pub val: OperandValue,
    pub layout: Layout,
}

} // verus!
