//! Arithmetic instructions: sums, products, quotients, shifts, and the
//! bitwise operations.

use crate::builder::Builder;
use crate::context::CodegenCx;
use crate::ir::{Block, Node, RValue, SlotName, Statement, Type};
use crate::kinds::{BinaryOp, UnaryOp};
use crate::model::CxView;
use vstd::prelude::*;

verus! {

impl Builder {
    /// The sum of two integers.
    pub fn add(&mut self, cx: &mut CodegenCx, a: RValue, b: RValue) -> (r: RValue)
        requires
            old(cx).wf(),
            old(cx)@.valid_rvalue(a),
            old(cx)@.valid_rvalue(b),
        ensures
            final(cx).wf(),
            final(cx)@ == old(cx)@.with_binary(BinaryOp::Plus, a, b),
            r == old(cx)@.next_value(),
            final(cx)@.valid_rvalue(r),
            *final(self) == *old(self),
            old(cx)@.grows_to(final(cx)@),
    {
        cx.binary(BinaryOp::Plus, a, b)
    }

    /// The sum of two floating-point values.
    pub fn fadd(&mut self, cx: &mut CodegenCx, a: RValue, b: RValue) -> (r: RValue)
        requires
            old(cx).wf(),
            old(cx)@.valid_rvalue(a),
            old(cx)@.valid_rvalue(b),
        ensures
            final(cx).wf(),
            final(cx)@ == old(cx)@.with_binary(BinaryOp::Plus, a, b),
            r == old(cx)@.next_value(),
            final(cx)@.valid_rvalue(r),
            *final(self) == *old(self),
            old(cx)@.grows_to(final(cx)@),
    {
        cx.binary(BinaryOp::Plus, a, b)
    }

    /// The difference of two integers.
    pub fn sub(&mut self, cx: &mut CodegenCx, a: RValue, b: RValue) -> (r: RValue)
        requires
            old(cx).wf(),
            old(cx)@.valid_rvalue(a),
            old(cx)@.valid_rvalue(b),
        ensures
            final(cx).wf(),
            final(cx)@ == old(cx)@.with_binary(BinaryOp::Minus, a, b),
            r == old(cx)@.next_value(),
            final(cx)@.valid_rvalue(r),
            *final(self) == *old(self),
            old(cx)@.grows_to(final(cx)@),
    {
        cx.binary(BinaryOp::Minus, a, b)
    }

    /// The difference of two floating-point values.
    pub fn fsub(&mut self, cx: &mut CodegenCx, a: RValue, b: RValue) -> (r: RValue)
        requires
            old(cx).wf(),
            old(cx)@.valid_rvalue(a),
            old(cx)@.valid_rvalue(b),
        ensures
            final(cx).wf(),
            final(cx)@ == old(cx)@.with_binary(BinaryOp::Minus, a, b),
            r == old(cx)@.next_value(),
            final(cx)@.valid_rvalue(r),
            *final(self) == *old(self),
            old(cx)@.grows_to(final(cx)@),
    {
        cx.binary(BinaryOp::Minus, a, b)
    }

    /// The product of two integers.
    pub fn mul(&mut self, cx: &mut CodegenCx, a: RValue, b: RValue) -> (r: RValue)
        requires
            old(cx).wf(),
            old(cx)@.valid_rvalue(a),
            old(cx)@.valid_rvalue(b),
        ensures
            final(cx).wf(),
            final(cx)@ == old(cx)@.with_binary(BinaryOp::Mult, a, b),
            r == old(cx)@.next_value(),
            final(cx)@.valid_rvalue(r),
            *final(self) == *old(self),
            old(cx)@.grows_to(final(cx)@),
    {
        cx.binary(BinaryOp::Mult, a, b)
    }

    /// The product of two floating-point values.
    pub fn fmul(&mut self, cx: &mut CodegenCx, a: RValue, b: RValue) -> (r: RValue)
        requires
            old(cx).wf(),
            old(cx)@.valid_rvalue(a),
            old(cx)@.valid_rvalue(b),
        ensures
            final(cx).wf(),
            final(cx)@ == old(cx)@.with_binary(BinaryOp::Mult, a, b),
            r == old(cx)@.next_value(),
            final(cx)@.valid_rvalue(r),
            *final(self) == *old(self),
            old(cx)@.grows_to(final(cx)@),
    {
        cx.binary(BinaryOp::Mult, a, b)
    }

    /// The quotient of two unsigned integers.
    pub fn udiv(&mut self, cx: &mut CodegenCx, a: RValue, b: RValue) -> (r: RValue)
        requires
            old(cx).wf(),
            old(cx)@.valid_rvalue(a),
            old(cx)@.valid_rvalue(b),
        ensures
            final(cx).wf(),
            final(cx)@ == old(cx)@.with_binary(BinaryOp::Divide, a, b),
            r == old(cx)@.next_value(),
            final(cx)@.valid_rvalue(r),
            *final(self) == *old(self),
            old(cx)@.grows_to(final(cx)@),
    {
        cx.binary(BinaryOp::Divide, a, b)
    }

    /// The quotient of two unsigned integers of which the second divides the first.
    pub fn exactudiv(&mut self, cx: &mut CodegenCx, a: RValue, b: RValue) -> (r: RValue)
        requires
            old(cx).wf(),
            old(cx)@.valid_rvalue(a),
            old(cx)@.valid_rvalue(b),
        ensures
            final(cx).wf(),
            final(cx)@ == old(cx)@.with_binary(BinaryOp::Divide, a, b),
            r == old(cx)@.next_value(),
            final(cx)@.valid_rvalue(r),
            *final(self) == *old(self),
            old(cx)@.grows_to(final(cx)@),
    {
        cx.binary(BinaryOp::Divide, a, b)
    }

    /// The quotient of two signed integers.
    pub fn sdiv(&mut self, cx: &mut CodegenCx, a: RValue, b: RValue) -> (r: RValue)
        requires
            old(cx).wf(),
            old(cx)@.valid_rvalue(a),
            old(cx)@.valid_rvalue(b),
        ensures
            final(cx).wf(),
            final(cx)@ == old(cx)@.with_binary(BinaryOp::Divide, a, b),
            r == old(cx)@.next_value(),
            final(cx)@.valid_rvalue(r),
            *final(self) == *old(self),
            old(cx)@.grows_to(final(cx)@),
    {
        cx.binary(BinaryOp::Divide, a, b)
    }

    /// The quotient of two signed integers of which the second divides the first.
    pub fn exactsdiv(&mut self, cx: &mut CodegenCx, a: RValue, b: RValue) -> (r: RValue)
        requires
            old(cx).wf(),
            old(cx)@.valid_rvalue(a),
            old(cx)@.valid_rvalue(b),
        ensures
            final(cx).wf(),
            final(cx)@ == old(cx)@.with_binary(BinaryOp::Divide, a, b),
            r == old(cx)@.next_value(),
            final(cx)@.valid_rvalue(r),
            *final(self) == *old(self),
            old(cx)@.grows_to(final(cx)@),
    {
        cx.binary(BinaryOp::Divide, a, b)
    }

    /// The quotient of two floating-point values.
    pub fn fdiv(&mut self, cx: &mut CodegenCx, a: RValue, b: RValue) -> (r: RValue)
        requires
            old(cx).wf(),
            old(cx)@.valid_rvalue(a),
            old(cx)@.valid_rvalue(b),
        ensures
            final(cx).wf(),
            final(cx)@ == old(cx)@.with_binary(BinaryOp::Divide, a, b),
            r == old(cx)@.next_value(),
            final(cx)@.valid_rvalue(r),
            *final(self) == *old(self),
            old(cx)@.grows_to(final(cx)@),
    {
        cx.binary(BinaryOp::Divide, a, b)
    }

    /// The remainder of two unsigned integers.
    pub fn urem(&mut self, cx: &mut CodegenCx, a: RValue, b: RValue) -> (r: RValue)
        requires
            old(cx).wf(),
            old(cx)@.valid_rvalue(a),
            old(cx)@.valid_rvalue(b),
        ensures
            final(cx).wf(),
            final(cx)@ == old(cx)@.with_binary(BinaryOp::Modulo, a, b),
            r == old(cx)@.next_value(),
            final(cx)@.valid_rvalue(r),
            *final(self) == *old(self),
            old(cx)@.grows_to(final(cx)@),
    {
        cx.binary(BinaryOp::Modulo, a, b)
    }

    /// The remainder of two signed integers.
    pub fn srem(&mut self, cx: &mut CodegenCx, a: RValue, b: RValue) -> (r: RValue)
        requires
            old(cx).wf(),
            old(cx)@.valid_rvalue(a),
            old(cx)@.valid_rvalue(b),
        ensures
            final(cx).wf(),
            final(cx)@ == old(cx)@.with_binary(BinaryOp::Modulo, a, b),
            r == old(cx)@.next_value(),
            final(cx)@.valid_rvalue(r),
            *final(self) == *old(self),
            old(cx)@.grows_to(final(cx)@),
    {
        cx.binary(BinaryOp::Modulo, a, b)
    }

    /// The remainder of two floating-point values.
    pub fn frem(&mut self, cx: &mut CodegenCx, a: RValue, b: RValue) -> (r: RValue)
        requires
            old(cx).wf(),
            old(cx)@.valid_rvalue(a),
            old(cx)@.valid_rvalue(b),
        ensures
            final(cx).wf(),
            final(cx)@ == old(cx)@.with_binary(BinaryOp::Modulo, a, b),
            r == old(cx)@.next_value(),
            final(cx)@.valid_rvalue(r),
            *final(self) == *old(self),
            old(cx)@.grows_to(final(cx)@),
    {
        cx.binary(BinaryOp::Modulo, a, b)
    }

    /// The bitwise exclusive or of two integers.
    pub fn xor(&mut self, cx: &mut CodegenCx, a: RValue, b: RValue) -> (r: RValue)
        requires
            old(cx).wf(),
            old(cx)@.valid_rvalue(a),
            old(cx)@.valid_rvalue(b),
        ensures
            final(cx).wf(),
            final(cx)@ == old(cx)@.with_binary(BinaryOp::BitwiseXor, a, b),
            r == old(cx)@.next_value(),
            final(cx)@.valid_rvalue(r),
            *final(self) == *old(self),
            old(cx)@.grows_to(final(cx)@),
    {
        cx.binary(BinaryOp::BitwiseXor, a, b)
    }

    /// The sum of two signed integers that does not overflow.
    pub fn unchecked_sadd(&mut self, cx: &mut CodegenCx, a: RValue, b: RValue) -> (r: RValue)
        requires
            old(cx).wf(),
            old(cx)@.valid_rvalue(a),
            old(cx)@.valid_rvalue(b),
        ensures
            final(cx).wf(),
            final(cx)@ == old(cx)@.with_binary(BinaryOp::Plus, a, b),
            r == old(cx)@.next_value(),
            final(cx)@.valid_rvalue(r),
            *final(self) == *old(self),
            old(cx)@.grows_to(final(cx)@),
    {
        cx.binary(BinaryOp::Plus, a, b)
    }

    /// The sum of two unsigned integers that does not overflow.
    pub fn unchecked_uadd(&mut self, cx: &mut CodegenCx, a: RValue, b: RValue) -> (r: RValue)
        requires
            old(cx).wf(),
            old(cx)@.valid_rvalue(a),
            old(cx)@.valid_rvalue(b),
        ensures
            final(cx).wf(),
            final(cx)@ == old(cx)@.with_binary(BinaryOp::Plus, a, b),
            r == old(cx)@.next_value(),
            final(cx)@.valid_rvalue(r),
            *final(self) == *old(self),
            old(cx)@.grows_to(final(cx)@),
    {
        cx.binary(BinaryOp::Plus, a, b)
    }

    /// The difference of two signed integers that does not overflow.
    pub fn unchecked_ssub(&mut self, cx: &mut CodegenCx, a: RValue, b: RValue) -> (r: RValue)
        requires
            old(cx).wf(),
            old(cx)@.valid_rvalue(a),
            old(cx)@.valid_rvalue(b),
        ensures
            final(cx).wf(),
            final(cx)@ == old(cx)@.with_binary(BinaryOp::Minus, a, b),
            r == old(cx)@.next_value(),
            final(cx)@.valid_rvalue(r),
            *final(self) == *old(self),
            old(cx)@.grows_to(final(cx)@),
    {
        cx.binary(BinaryOp::Minus, a, b)
    }

    /// The difference of two unsigned integers that does not overflow.
    pub fn unchecked_usub(&mut self, cx: &mut CodegenCx, a: RValue, b: RValue) -> (r: RValue)
        requires
            old(cx).wf(),
            old(cx)@.valid_rvalue(a),
            old(cx)@.valid_rvalue(b),
        ensures
            final(cx).wf(),
            final(cx)@ == old(cx)@.with_binary(BinaryOp::Minus, a, b),
            r == old(cx)@.next_value(),
            final(cx)@.valid_rvalue(r),
            *final(self) == *old(self),
            old(cx)@.grows_to(final(cx)@),
    {
        cx.binary(BinaryOp::Minus, a, b)
    }

    /// The product of two signed integers that does not overflow.
    pub fn unchecked_smul(&mut self, cx: &mut CodegenCx, a: RValue, b: RValue) -> (r: RValue)
        requires
            old(cx).wf(),
            old(cx)@.valid_rvalue(a),
            old(cx)@.valid_rvalue(b),
        ensures
            final(cx).wf(),
            final(cx)@ == old(cx)@.with_binary(BinaryOp::Mult, a, b),
            r == old(cx)@.next_value(),
            final(cx)@.valid_rvalue(r),
            *final(self) == *old(self),
            old(cx)@.grows_to(final(cx)@),
    {
        cx.binary(BinaryOp::Mult, a, b)
    }

    /// The product of two unsigned integers that does not overflow.
    pub fn unchecked_umul(&mut self, cx: &mut CodegenCx, a: RValue, b: RValue) -> (r: RValue)
        requires
            old(cx).wf(),
            old(cx)@.valid_rvalue(a),
            old(cx)@.valid_rvalue(b),
        ensures
            final(cx).wf(),
            final(cx)@ == old(cx)@.with_binary(BinaryOp::Mult, a, b),
            r == old(cx)@.next_value(),
            final(cx)@.valid_rvalue(r),
            *final(self) == *old(self),
            old(cx)@.grows_to(final(cx)@),
    {
        cx.binary(BinaryOp::Mult, a, b)
    }

    /// Whether one of two types is a signed integer and the other an
    /// unsigned one.
    pub open spec fn sign_mismatch(cx: CxView, a: Type, b: Type) -> bool {
        (cx.is_unsigned(a) && cx.is_signed(b)) || (cx.is_signed(a) && cx.is_unsigned(b))
    }

    /// A shift of `a` by `b`: where their signedness differs, the amount is
    /// first converted to the type of the shifted value.
    pub open spec fn spec_shift(cx: CxView, op: BinaryOp, a: RValue, b: RValue) -> CxView {
        if Builder::sign_mismatch(cx, cx.type_of(a), cx.type_of(b)) {
            cx.with_node(Node::Cast { value: b }, cx.type_of(a)).with_binary(op, a, cx.next_value())
        } else {
            cx.with_binary(op, a, b)
        }
    }

    fn shift(&self, cx: &mut CodegenCx, op: BinaryOp, a: RValue, b: RValue) -> (r: RValue)
        requires
            old(cx).wf(),
            old(cx)@.valid_rvalue(a),
            old(cx)@.valid_rvalue(b),
        ensures
            final(cx).wf(),
            final(cx)@ == Builder::spec_shift(old(cx)@, op, a, b),
            r.id == final(cx)@.values.len() - 1,
            final(cx)@.valid_rvalue(r),
            final(cx)@.node(r) matches Node::Binary { op: o, lhs, .. } && lhs == a && o == op,
            old(cx)@.grows_to(final(cx)@),
    {
        let a_type = cx.val_ty(a);
        let b_type = cx.val_ty(b);
        let mismatch = (cx.is_unsigned(a_type) && cx.is_signed(b_type)) || (cx.is_signed(a_type)
            && cx.is_unsigned(b_type));
        if mismatch {
            let b = cx.new_cast(b, a_type);
            cx.binary(op, a, b)
        } else {
            cx.binary(op, a, b)
        }
    }

    /// `a` shifted left by `b`.
    pub fn shl(&mut self, cx: &mut CodegenCx, a: RValue, b: RValue) -> (r: RValue)
        requires
            old(cx).wf(),
            old(cx)@.valid_rvalue(a),
            old(cx)@.valid_rvalue(b),
        ensures
            final(cx).wf(),
            final(cx)@ == Builder::spec_shift(old(cx)@, BinaryOp::LShift, a, b),
            r.id == final(cx)@.values.len() - 1,
            final(cx)@.valid_rvalue(r),
            final(cx)@.node(r) matches Node::Binary { op: BinaryOp::LShift, lhs, .. } && lhs == a,
            *final(self) == *old(self),
            old(cx)@.grows_to(final(cx)@),
    {
        self.shift(cx, BinaryOp::LShift, a, b)
    }

    /// `a` shifted right by `b`, for an unsigned `a`.
    pub fn lshr(&mut self, cx: &mut CodegenCx, a: RValue, b: RValue) -> (r: RValue)
        requires
            old(cx).wf(),
            old(cx)@.valid_rvalue(a),
            old(cx)@.valid_rvalue(b),
        ensures
            final(cx).wf(),
            final(cx)@ == Builder::spec_shift(old(cx)@, BinaryOp::RShift, a, b),
            r.id == final(cx)@.values.len() - 1,
            final(cx)@.valid_rvalue(r),
            final(cx)@.node(r) matches Node::Binary { op: BinaryOp::RShift, lhs, .. } && lhs == a,
            *final(self) == *old(self),
            old(cx)@.grows_to(final(cx)@),
    {
        self.shift(cx, BinaryOp::RShift, a, b)
    }

    /// `a` shifted right by `b`, for a signed `a`.
    pub fn ashr(&mut self, cx: &mut CodegenCx, a: RValue, b: RValue) -> (r: RValue)
        requires
            old(cx).wf(),
            old(cx)@.valid_rvalue(a),
            old(cx)@.valid_rvalue(b),
        ensures
            final(cx).wf(),
            final(cx)@ == Builder::spec_shift(old(cx)@, BinaryOp::RShift, a, b),
            r.id == final(cx)@.values.len() - 1,
            final(cx)@.valid_rvalue(r),
            final(cx)@.node(r) matches Node::Binary { op: BinaryOp::RShift, lhs, .. } && lhs == a,
            *final(self) == *old(self),
            old(cx)@.grows_to(final(cx)@),
    {
        self.shift(cx, BinaryOp::RShift, a, b)
    }

    /// The slot-and-assignment form of a bitwise operation: a new slot of
    /// the type of `b`, then the expression, then the assignment of the
    /// expression to the slot in the builder's block.
    pub open spec fn spec_through_slot(
        cx: CxView,
        at: Block,
        op: BinaryOp,
        name: SlotName,
        a: RValue,
        b: RValue,
    ) -> CxView {
        let c1 = cx.with_local(cx.owner(at)->id, cx.type_of(b), name);
        let c2 = c1.with_binary(op, a, b);
        c2.emit(at, Statement::Assign { place: cx.next_place(), value: c1.next_value() })
    }

    fn through_slot(
        &self,
        cx: &mut CodegenCx,
        op: BinaryOp,
        name: SlotName,
        a: RValue,
        b: RValue,
    ) -> (r: RValue)
        requires
            old(cx).wf(),
            self.ready(old(cx)@),
            old(cx)@.valid_rvalue(a),
            old(cx)@.valid_rvalue(b),
            name.serial() is None,
        ensures
            final(cx).wf(),
            final(cx)@ == Builder::spec_through_slot(old(cx)@, self.at(), op, name, a, b),
            r == old(cx)@.next_value(),
            final(cx)@.valid_rvalue(r),
            self.ready(final(cx)@),
            old(cx)@.grows_to(final(cx)@),
    {
        let func = self.current_func(cx);
        let ty = cx.val_ty(b);
        let res = cx.new_local(func, ty, name);
        let value = cx.binary(op, a, b);
        cx.add_assignment(self.llbb(), res, value);
        res.to_rvalue()
    }

    /// The bitwise and of two integers. The result goes through a slot
    /// named `andResult`, and is that slot read back.
    pub fn and(&mut self, cx: &mut CodegenCx, a: RValue, b: RValue) -> (r: RValue)
        requires
            old(cx).wf(),
            old(self).ready(old(cx)@),
            old(cx)@.valid_rvalue(a),
            old(cx)@.valid_rvalue(b),
        ensures
            final(cx).wf(),
            final(cx)@ == Builder::spec_through_slot(
                old(cx)@,
                old(self).at(),
                BinaryOp::BitwiseAnd,
                SlotName::AndResult,
                a,
                b,
            ),
            r == old(cx)@.next_value(),
            final(cx)@.valid_rvalue(r),
            *final(self) == *old(self),
            final(self).ready(final(cx)@),
            old(cx)@.grows_to(final(cx)@),
    {
        self.through_slot(cx, BinaryOp::BitwiseAnd, SlotName::AndResult, a, b)
    }

    /// The bitwise or of two integers. The result goes through a slot named
    /// `orResult`, and is that slot read back.
    pub fn or(&mut self, cx: &mut CodegenCx, a: RValue, b: RValue) -> (r: RValue)
        requires
            old(cx).wf(),
            old(self).ready(old(cx)@),
            old(cx)@.valid_rvalue(a),
            old(cx)@.valid_rvalue(b),
        ensures
            final(cx).wf(),
            final(cx)@ == Builder::spec_through_slot(
                old(cx)@,
                old(self).at(),
                BinaryOp::BitwiseOr,
                SlotName::OrResult,
                a,
                b,
            ),
            r == old(cx)@.next_value(),
            final(cx)@.valid_rvalue(r),
            *final(self) == *old(self),
            final(self).ready(final(cx)@),
            old(cx)@.grows_to(final(cx)@),
    {
        self.through_slot(cx, BinaryOp::BitwiseOr, SlotName::OrResult, a, b)
    }

    /// Zero minus `a`, in the type of `a`.
    pub open spec fn spec_neg(cx: CxView, a: RValue) -> CxView {
        cx.with_node(Node::Int { value: 0 }, cx.type_of(a)).with_binary(
            BinaryOp::Minus,
            cx.next_value(),
            a,
        )
    }

    /// The negation of an integer: zero minus the value.
    pub fn neg(&mut self, cx: &mut CodegenCx, a: RValue) -> (r: RValue)
        requires
            old(cx).wf(),
            old(cx)@.valid_rvalue(a),
        ensures
            final(cx).wf(),
            final(cx)@ == Builder::spec_neg(old(cx)@, a),
            r.id == old(cx)@.values.len() + 1,
            final(cx)@.valid_rvalue(r),
            *final(self) == *old(self),
            old(cx)@.grows_to(final(cx)@),
    {
        let ty = cx.val_ty(a);
        let zero = cx.new_rvalue_from_long(ty, 0);
        cx.binary(BinaryOp::Minus, zero, a)
    }

    /// The negation of a floating-point value: zero minus the value.
    pub fn fneg(&mut self, cx: &mut CodegenCx, a: RValue) -> (r: RValue)
        requires
            old(cx).wf(),
            old(cx)@.valid_rvalue(a),
        ensures
            final(cx).wf(),
            final(cx)@ == Builder::spec_neg(old(cx)@, a),
            r.id == old(cx)@.values.len() + 1,
            final(cx)@.valid_rvalue(r),
            *final(self) == *old(self),
            old(cx)@.grows_to(final(cx)@),
    {
        let ty = cx.val_ty(a);
        let zero = cx.new_rvalue_from_long(ty, 0);
        cx.binary(BinaryOp::Minus, zero, a)
    }

    /// The operator that complements a value of type `ty`: the logical one
    /// for a boolean, the bitwise one for anything else.
    pub open spec fn complement(cx: CxView, ty: Type) -> UnaryOp {
        if cx.kind(ty) is Bool {
            UnaryOp::LogicalNegate
        } else {
            UnaryOp::BitwiseNegate
        }
    }

    /// The complement of a value, in the type of the value.
    pub fn not(&mut self, cx: &mut CodegenCx, a: RValue) -> (r: RValue)
        requires
            old(cx).wf(),
            old(cx)@.valid_rvalue(a),
        ensures
            final(cx).wf(),
            final(cx)@ == old(cx)@.with_node(
                Node::Unary {
                    op: Builder::complement(old(cx)@, old(cx)@.type_of(a)),
                    operand: a,
                },
                old(cx)@.type_of(a),
            ),
            r == old(cx)@.next_value(),
            final(cx)@.valid_rvalue(r),
            *final(self) == *old(self),
            old(cx)@.grows_to(final(cx)@),
    {
        let ty = cx.val_ty(a);
        let operation = if cx.is_bool(ty) {
            UnaryOp::LogicalNegate
        } else {
            UnaryOp::BitwiseNegate
        };
        cx.new_unary_op(operation, ty, a)
    }
}

} // verus!
