//! The target IR as data: type descriptors, the value graph, statements,
//! terminators and blocks. Everything is referred to by handle; the tables
//! that the handles point into belong to the context.

use crate::kinds::{BinaryOp, Builtin, ComparisonOp, UnaryOp};
use vstd::prelude::*;

verus! {

/// Handle of a type descriptor.
#[derive(Clone, Copy, Debug, PartialEq, Eq, Structural)]
pub struct Type {
    pub id: usize,
}

/// Handle of a computed value: a node of the value graph.
#[derive(Clone, Copy, Debug, PartialEq, Eq, Structural)]
pub struct RValue {
    pub id: usize,
}

/// Handle of a storage location: a node of the value graph that can be
/// assigned to.
#[derive(Clone, Copy, Debug, PartialEq, Eq, Structural)]
pub struct LValue {
    pub id: usize,
}

/// Handle of a basic block.
#[derive(Clone, Copy, Debug, PartialEq, Eq, Structural)]
pub struct Block {
    pub id: usize,
}

/// Handle of a function: one that the context holds a signature and blocks
/// for, or one that the target library provides by name.
#[derive(Clone, Copy, Debug, PartialEq, Eq, Structural)]
pub enum Function {
    Defined { id: usize },
    Builtin { which: Builtin },
}

/// The name of a slot. The two numbered forms draw their number from the
/// context's fresh-name counter.
#[derive(Clone, Copy, Debug, PartialEq, Eq, Structural)]
pub enum SlotName {
    ReturnValue { serial: usize },
    LoadedValue { serial: usize },
    AndResult,
    OrResult,
    BinopResult,
    StackVar,
    LoopVar,
    SelectVar,
    VectorVar,
    UnreachableReturn,
    Undefined,
}

impl SlotName {
    /// The text of the name without its number.
    pub open spec fn spec_stem(self) -> Seq<char> {
        match self {
            SlotName::ReturnValue { .. } => "returnValue"@,
            SlotName::LoadedValue { .. } => "loadedValue"@,
            SlotName::AndResult => "andResult"@,
            SlotName::OrResult => "orResult"@,
            SlotName::BinopResult => "binopResult"@,
            SlotName::StackVar => "stack_var"@,
            SlotName::LoopVar => "loop_var"@,
            SlotName::SelectVar => "selectVar"@,
            SlotName::VectorVar => "vectorVar"@,
            SlotName::UnreachableReturn => "unreachableReturn"@,
            SlotName::Undefined => "undefined"@,
        }
    }

    /// The text of the name without its number. The full name of a
    /// numbered slot is this text followed by the number in decimal.
    pub fn stem(&self) -> (r: &'static str)
        ensures
            r@ == self.spec_stem(),
    {
        match self {
            SlotName::ReturnValue { .. } => "returnValue",
            SlotName::LoadedValue { .. } => "loadedValue",
            SlotName::AndResult => "andResult",
            SlotName::OrResult => "orResult",
            SlotName::BinopResult => "binopResult",
            SlotName::StackVar => "stack_var",
            SlotName::LoopVar => "loop_var",
            SlotName::SelectVar => "selectVar",
            SlotName::VectorVar => "vectorVar",
            SlotName::UnreachableReturn => "unreachableReturn",
            SlotName::Undefined => "undefined",
        }
    }

    /// The number of a numbered name, if it has one.
    pub fn number(&self) -> (r: Option<usize>)
        ensures
            r == self.serial(),
    {
        match self {
            SlotName::ReturnValue { serial } => Some(*serial),
            SlotName::LoadedValue { serial } => Some(*serial),
            _ => None,
        }
    }

    /// The number of a numbered name.
    pub open spec fn serial(self) -> Option<usize> {
        match self {
            SlotName::ReturnValue { serial } => Some(serial),
            SlotName::LoadedValue { serial } => Some(serial),
            _ => None,
        }
    }
}

/// What a type descriptor says of a machine representation. The field types
/// of a struct and the parameter types of a function pointer stand beside
/// the kind, as the descriptor's members.
#[derive(Clone, Copy, Debug, PartialEq, Eq, Structural)]
pub enum TypeKind {
    Void,
    Bool,
    Int { bits: u8, signed: bool },
    Float { bits: u8 },
    Pointer { pointee: Type },
    Volatile { inner: Type },
    Aligned { inner: Type, bytes: u64 },
    Array { elem: Type, len: u64 },
    Vector { elem: Type, units: usize },
    Struct,
    FunctionPtr { ret: Type, variadic: bool },
}

/// A node of the value graph. The arguments of a call and the elements of a
/// vector stand beside the node.
#[derive(Clone, Copy, Debug, PartialEq, Eq, Structural)]
#[allow(inconsistent_fields)]
pub enum Node {
    Int { value: i64 },
    UintBig { value: u128 },
    Param { func: usize, index: usize },
    FunctionRef { func: Function },
    Unary { op: UnaryOp, operand: RValue },
    Binary { op: BinaryOp, lhs: RValue, rhs: RValue },
    Comparison { op: ComparisonOp, lhs: RValue, rhs: RValue },
    Cast { value: RValue },
    Bitcast { value: RValue },
    Call { func: Function },
    CallThroughPtr { ptr: RValue },
    AddressOf { place: LValue },
    VectorOf,
    Local { func: usize, name: SlotName },
    Deref { ptr: RValue },
    ArrayAccess { base: RValue, index: RValue },
    DerefField { ptr: RValue, field: usize },
    AccessField { base: RValue, field: usize },
}

impl Node {
    /// Whether the node is a storage location.
    pub open spec fn is_place(self) -> bool {
        self is Local || self is Deref || self is ArrayAccess || self is DerefField
            || self is AccessField
    }

    /// The value handles that the node itself mentions.
    pub open spec fn operands(self) -> Seq<usize> {
        match self {
            Node::Unary { operand, .. } => seq![operand.id],
            Node::Binary { lhs, rhs, .. } => seq![lhs.id, rhs.id],
            Node::Comparison { lhs, rhs, .. } => seq![lhs.id, rhs.id],
            Node::Cast { value } => seq![value.id],
            Node::Bitcast { value } => seq![value.id],
            Node::CallThroughPtr { ptr } => seq![ptr.id],
            Node::AddressOf { place } => seq![place.id],
            Node::Deref { ptr } => seq![ptr.id],
            Node::ArrayAccess { base, index } => seq![base.id, index.id],
            Node::DerefField { ptr, .. } => seq![ptr.id],
            Node::AccessField { base, .. } => seq![base.id],
            _ => seq![],
        }
    }
}

/// A statement of a block.
#[derive(Clone, Copy, Debug, PartialEq, Eq, Structural)]
pub enum Statement {
    Eval { value: RValue },
    Assign { place: LValue, value: RValue },
    AssignOp { place: LValue, op: BinaryOp, value: RValue },
}

impl Statement {
    /// The value handles that the statement mentions.
    pub open spec fn operands(self) -> Seq<usize> {
        match self {
            Statement::Eval { value } => seq![value.id],
            Statement::Assign { place, value } => seq![place.id, value.id],
            Statement::AssignOp { place, value, .. } => seq![place.id, value.id],
        }
    }

    /// The location that the statement writes, if it writes one.
    pub open spec fn place(self) -> Option<LValue> {
        match self {
            Statement::Eval { .. } => None,
            Statement::Assign { place, .. } => Some(place),
            Statement::AssignOp { place, .. } => Some(place),
        }
    }
}

/// The control transfer that ends a block. The cases of a switch stand
/// beside the terminator.
#[derive(Clone, Copy, Debug, PartialEq, Eq, Structural)]
pub enum Terminator {
    Return { value: RValue },
    VoidReturn,
    Jump { target: Block },
    Conditional { cond: RValue, on_true: Block, on_false: Block },
    Switch { value: RValue, default: Block },
}

/// One case of a switch: the inclusive range of values that it matches, and
/// where they go.
#[derive(Clone, Copy, Debug, PartialEq, Eq, Structural)]
pub struct Case {
    pub min: RValue,
    pub max: RValue,
    pub dest: Block,
}

/// A type descriptor with its members.
#[derive(Debug)]
pub struct TypeData {
    pub kind: TypeKind,
    pub members: Vec<Type>,
}

#[verifier::ext_equal]
pub ghost struct TypeView {
    pub kind: TypeKind,
    pub members: Seq<Type>,
}

impl View for TypeData {
    type V = TypeView;

    open spec fn view(&self) -> TypeView {
        TypeView { kind: self.kind, members: self.members@ }
    }
}

/// A node of the value graph with its type and its arguments.
#[derive(Debug)]
pub struct ValueData {
    pub node: Node,
    pub ty: Type,
    pub args: Vec<RValue>,
}

#[verifier::ext_equal]
pub ghost struct ValueView {
    pub node: Node,
    pub ty: Type,
    pub args: Seq<RValue>,
}

impl View for ValueData {
    type V = ValueView;

    open spec fn view(&self) -> ValueView {
        ValueView { node: self.node, ty: self.ty, args: self.args@ }
    }
}

/// The signature of a function of the context.
#[derive(Debug)]
pub struct FunctionData {
    pub name: String,
    pub return_type: Type,
    pub params: Vec<Type>,
}

#[verifier::ext_equal]
pub ghost struct FunctionView {
    pub name: Seq<char>,
    pub return_type: Type,
    pub params: Seq<Type>,
}

impl View for FunctionData {
    type V = FunctionView;

    open spec fn view(&self) -> FunctionView {
        FunctionView { name: self.name@, return_type: self.return_type, params: self.params@ }
    }
}

/// A basic block: its owner, its statements in order and, once it is
/// closed, its terminator.
#[derive(Debug)]
pub struct BlockData {
    pub func: usize,
    pub name: String,
    pub statements: Vec<Statement>,
    pub terminator: Option<Terminator>,
    pub cases: Vec<Case>,
}

#[verifier::ext_equal]
pub ghost struct BlockView {
    pub func: usize,
    pub name: Seq<char>,
    pub statements: Seq<Statement>,
    pub terminator: Option<Terminator>,
    pub cases: Seq<Case>,
}

impl View for BlockData {
    type V = BlockView;

    open spec fn view(&self) -> BlockView {
        BlockView {
            func: self.func,
            name: self.name@,
            statements: self.statements@,
            terminator: self.terminator,
            cases: self.cases@,
        }
    }
}

impl LValue {
    /// The node of the location, seen as a value.
    pub open spec fn to_value(self) -> RValue {
        RValue { id: self.id }
    }

    /// A location read as a value: the same node, seen as a value.
    pub fn to_rvalue(&self) -> (r: RValue)
        ensures
            r == self.to_value(),
    {
        RValue { id: self.id }
    }
}

} // verus!
