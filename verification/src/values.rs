//! Constructors of value-graph nodes, one for each form of expression and
//! location that lowering produces.

use crate::context::CodegenCx;
use crate::ir::{Function, LValue, Node, RValue, Type, TypeKind, ValueView};
use crate::kinds::{BinaryOp, ComparisonOp, UnaryOp};
use crate::model::CxView;
use vstd::prelude::*;

verus! {

impl CodegenCx {
    /// The integer constant `value` of type `ty`.
    pub fn new_rvalue_from_long(&mut self, ty: Type, value: i64) -> (r: RValue)
        requires
            old(self).wf(),
            old(self)@.valid_type(ty),
        ensures
            final(self).wf(),
            final(self)@ == old(self)@.with_node(Node::Int { value }, ty),
            r == old(self)@.next_value(),
            final(self)@.valid_rvalue(r),
    {
        self.new_node(Node::Int { value }, ty)
    }

    /// The integer constant `value` of type `ty`.
    pub fn new_rvalue_from_int(&mut self, ty: Type, value: i32) -> (r: RValue)
        requires
            old(self).wf(),
            old(self)@.valid_type(ty),
        ensures
            final(self).wf(),
            final(self)@ == old(self)@.with_node(Node::Int { value: value as i64 }, ty),
            r == old(self)@.next_value(),
            final(self)@.valid_rvalue(r),
    {
        self.new_node(Node::Int { value: value as i64 }, ty)
    }

    /// The zero of type `ty`.
    pub fn new_rvalue_zero(&mut self, ty: Type) -> (r: RValue)
        requires
            old(self).wf(),
            old(self)@.valid_type(ty),
        ensures
            final(self).wf(),
            final(self)@ == old(self)@.with_node(Node::Int { value: 0 }, ty),
            r == old(self)@.next_value(),
            final(self)@.valid_rvalue(r),
    {
        self.new_node(Node::Int { value: 0 }, ty)
    }

    /// The unsigned constant `value` of type `ty`.
    pub fn const_uint_big(&mut self, ty: Type, value: u128) -> (r: RValue)
        requires
            old(self).wf(),
            old(self)@.valid_type(ty),
        ensures
            final(self).wf(),
            final(self)@ == old(self)@.with_node(Node::UintBig { value }, ty),
            r == old(self)@.next_value(),
            final(self)@.valid_rvalue(r),
    {
        self.new_node(Node::UintBig { value }, ty)
    }

    /// The constant `value` of the unsigned pointer-sized type.
    pub fn const_usize(&mut self, value: u64) -> (r: RValue)
        requires
            old(self).wf(),
        ensures
            final(self).wf(),
            final(self)@ == old(self)@.with_node(
                Node::UintBig { value: value as u128 },
                Type { id: 13 },
            ),
            r == old(self)@.next_value(),
            final(self)@.valid_rvalue(r),
    {
        let ty = self.type_usize();
        self.new_node(Node::UintBig { value: value as u128 }, ty)
    }

    /// `value` converted to type `ty`.
    pub fn new_cast(&mut self, value: RValue, ty: Type) -> (r: RValue)
        requires
            old(self).wf(),
            old(self)@.valid_rvalue(value),
            old(self)@.valid_type(ty),
        ensures
            final(self).wf(),
            final(self)@ == old(self)@.with_node(Node::Cast { value }, ty),
            r == old(self)@.next_value(),
            final(self)@.valid_rvalue(r),
    {
        self.new_node(Node::Cast { value }, ty)
    }

    /// The bits of `value` read as type `ty`.
    pub fn new_bitcast(&mut self, value: RValue, ty: Type) -> (r: RValue)
        requires
            old(self).wf(),
            old(self)@.valid_rvalue(value),
            old(self)@.valid_type(ty),
        ensures
            final(self).wf(),
            final(self)@ == old(self)@.with_node(Node::Bitcast { value }, ty),
            r == old(self)@.next_value(),
            final(self)@.valid_rvalue(r),
    {
        self.new_node(Node::Bitcast { value }, ty)
    }

    pub fn new_unary_op(&mut self, op: UnaryOp, ty: Type, operand: RValue) -> (r: RValue)
        requires
            old(self).wf(),
            old(self)@.valid_rvalue(operand),
            old(self)@.valid_type(ty),
        ensures
            final(self).wf(),
            final(self)@ == old(self)@.with_node(Node::Unary { op, operand }, ty),
            r == old(self)@.next_value(),
            final(self)@.valid_rvalue(r),
    {
        self.new_node(Node::Unary { op, operand }, ty)
    }

    /// `lhs op rhs`; the result has the type of `rhs`.
    pub fn binary(&mut self, op: BinaryOp, lhs: RValue, rhs: RValue) -> (r: RValue)
        requires
            old(self).wf(),
            old(self)@.valid_rvalue(lhs),
            old(self)@.valid_rvalue(rhs),
        ensures
            final(self).wf(),
            final(self)@ == old(self)@.with_binary(op, lhs, rhs),
            r == old(self)@.next_value(),
            final(self)@.valid_rvalue(r),
    {
        let ty = self.val_ty(rhs);
        self.new_node(Node::Binary { op, lhs, rhs }, ty)
    }

    /// The comparison of two values; the result is a boolean.
    pub fn new_comparison(&mut self, op: ComparisonOp, lhs: RValue, rhs: RValue) -> (r: RValue)
        requires
            old(self).wf(),
            old(self)@.valid_rvalue(lhs),
            old(self)@.valid_rvalue(rhs),
        ensures
            final(self).wf(),
            final(self)@ == old(self)@.with_comparison(op, lhs, rhs),
            r == old(self)@.next_value(),
            final(self)@.valid_rvalue(r),
    {
        let ty = self.type_bool();
        self.new_node(Node::Comparison { op, lhs, rhs }, ty)
    }

    /// A call of a function; `ty` is the type of its result.
    pub fn new_call(&mut self, func: Function, ty: Type, args: Vec<RValue>) -> (r: RValue)
        requires
            old(self).wf(),
            old(self)@.valid_function(func),
            old(self)@.valid_type(ty),
            old(self)@.valid_rvalues(args@),
        ensures
            final(self).wf(),
            final(self)@ == old(self)@.with_call(func, ty, args@),
            r == old(self)@.next_value(),
            final(self)@.valid_rvalue(r),
    {
        self.new_value(Node::Call { func }, ty, args)
    }

    /// A call through a function pointer; `ty` is the type of its result.
    pub fn new_call_through_ptr(&mut self, ptr: RValue, ty: Type, args: Vec<RValue>) -> (r:
        RValue)
        requires
            old(self).wf(),
            old(self)@.valid_rvalue(ptr),
            old(self)@.valid_type(ty),
            old(self)@.valid_rvalues(args@),
        ensures
            final(self).wf(),
            final(self)@ == old(self)@.with_call_through(ptr, ty, args@),
            r == old(self)@.next_value(),
            final(self)@.valid_rvalue(r),
    {
        self.new_value(Node::CallThroughPtr { ptr }, ty, args)
    }

    /// A vector value of type `ty` made of the given elements.
    pub fn new_rvalue_from_vector(&mut self, ty: Type, elements: Vec<RValue>) -> (r: RValue)
        requires
            old(self).wf(),
            old(self)@.valid_type(ty),
            old(self)@.valid_rvalues(elements@),
        ensures
            final(self).wf(),
            final(self)@ == old(self)@.push_value(
                ValueView { node: Node::VectorOf, ty, args: elements@ },
            ),
            r == old(self)@.next_value(),
            final(self)@.valid_rvalue(r),
    {
        self.new_value(Node::VectorOf, ty, elements)
    }

    /// Parameter `index` of a function, as a value.
    pub fn get_param(&mut self, func: Function, index: usize) -> (r: RValue)
        requires
            old(self).wf(),
            old(self)@.defined(func),
            index < old(self)@.functions[func->id as int].params.len(),
        ensures
            final(self).wf(),
            final(self)@ == old(self)@.with_node(
                Node::Param { func: func->id, index },
                old(self)@.functions[func->id as int].params[index as int],
            ),
            r == old(self)@.next_value(),
            final(self)@.valid_rvalue(r),
    {
        let ty = self.get_param_type(func, index);
        match func {
            Function::Defined { id } => self.new_node(Node::Param { func: id, index }, ty),
            Function::Builtin { .. } => RValue { id: 0 },
        }
    }

    /// A function as a value of type `ty`, to be called.
    pub fn function_ref(&mut self, func: Function, ty: Type) -> (r: RValue)
        requires
            old(self).wf(),
            old(self)@.valid_function(func),
            old(self)@.valid_type(ty),
        ensures
            final(self).wf(),
            final(self)@ == old(self)@.with_node(Node::FunctionRef { func }, ty),
            r == old(self)@.next_value(),
            final(self)@.valid_rvalue(r),
    {
        self.new_node(Node::FunctionRef { func }, ty)
    }

    /// The location that a pointer points to.
    pub fn dereference(&mut self, ptr: RValue) -> (r: LValue)
        requires
            old(self).wf(),
            old(self)@.valid_rvalue(ptr),
            old(self)@.is_pointer(old(self)@.type_of(ptr)),
        ensures
            final(self).wf(),
            final(self)@ == old(self)@.with_deref(ptr),
            r == old(self)@.next_place(),
            final(self)@.valid_lvalue(r),
    {
        let pty = self.val_ty(ptr);
        let ty = self.pointee(pty).unwrap();
        let v = self.new_node(Node::Deref { ptr }, ty);
        proof {
            assert(self@.values[v.id as int].node == (Node::Deref { ptr }));
        }
        LValue { id: v.id }
    }

    /// The address of a location: a pointer to its type.
    pub fn get_address(&mut self, place: LValue) -> (r: RValue)
        requires
            old(self).wf(),
            old(self)@.valid_lvalue(place),
        ensures
            final(self).wf(),
            final(self)@ == old(self)@.with_address(place),
            r == old(self)@.next_value(),
            final(self)@.valid_rvalue(r),
            final(self)@.kind(final(self)@.type_of(r)) == (TypeKind::Pointer {
                pointee: old(self)@.type_of(place.to_value()),
            }),
    {
        let ty = self.val_ty(place.to_rvalue());
        let pty = self.make_pointer(ty);
        self.new_node(Node::AddressOf { place }, pty)
    }

    /// Element `index` of an array, a vector, or the memory behind a
    /// pointer.
    pub fn new_array_access(&mut self, base: RValue, index: RValue) -> (r: LValue)
        requires
            old(self).wf(),
            old(self)@.valid_rvalue(base),
            old(self)@.valid_rvalue(index),
            old(self)@.element(old(self)@.type_of(base)) is Some,
        ensures
            final(self).wf(),
            final(self)@ == old(self)@.with_element(base, index),
            r == old(self)@.next_place(),
            final(self)@.valid_lvalue(r),
    {
        let bty = self.val_ty(base);
        let ty = self.element_type(bty).unwrap();
        let v = self.new_node(Node::ArrayAccess { base, index }, ty);
        proof {
            assert(self@.values[v.id as int].node == (Node::ArrayAccess { base, index }));
        }
        LValue { id: v.id }
    }

    /// Field `field` of a struct value, of type `ty`.
    pub fn access_field(&mut self, base: RValue, field: usize, ty: Type) -> (r: LValue)
        requires
            old(self).wf(),
            old(self)@.valid_rvalue(base),
            old(self)@.valid_type(ty),
        ensures
            final(self).wf(),
            final(self)@ == old(self)@.with_node(Node::AccessField { base, field }, ty),
            r == old(self)@.next_place(),
            final(self)@.valid_lvalue(r),
    {
        let v = self.new_node(Node::AccessField { base, field }, ty);
        proof {
            assert(self@.values[v.id as int].node == (Node::AccessField { base, field }));
        }
        LValue { id: v.id }
    }

    /// Field `field`, of type `ty`, of the struct that a pointer points to.
    pub fn dereference_field(&mut self, ptr: RValue, field: usize, ty: Type) -> (r: LValue)
        requires
            old(self).wf(),
            old(self)@.valid_rvalue(ptr),
            old(self)@.valid_type(ty),
        ensures
            final(self).wf(),
            final(self)@ == old(self)@.with_node(Node::DerefField { ptr, field }, ty),
            r == old(self)@.next_place(),
            final(self)@.valid_lvalue(r),
    {
        let v = self.new_node(Node::DerefField { ptr, field }, ty);
        proof {
            assert(self@.values[v.id as int].node == (Node::DerefField { ptr, field }));
        }
        LValue { id: v.id }
    }

    /// The function that a value stands for, if it stands for one.
    pub fn rvalue_as_function(&self, v: RValue) -> (r: Option<Function>)
        requires
            self.wf(),
            self@.valid_rvalue(v),
        ensures
            r == (match self@.node(v) {
                Node::FunctionRef { func } => Some(func),
                _ => None,
            }),
            r matches Some(f) ==> self@.valid_function(f),
    {
        proof {
            reveal(CxView::values_wf);
        }
        proof {
            assert(self@.value_ok(self@.values[v.id as int], v.id as int));
        }
        match self.values[v.id].node {
            Node::FunctionRef { func } => Some(func),
            _ => None,
        }
    }
}

} // verus!
