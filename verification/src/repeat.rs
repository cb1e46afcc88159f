//! The store of one operand to every element of an array, as a counted
//! loop over the elements' addresses.

use crate::builder::Builder;
use crate::context::CodegenCx;
use crate::ir::{Block, LValue, Node, RValue, SlotName, Statement, Terminator, Type, TypeKind};
use crate::kinds::{BinaryOp, ComparisonOp, IntPredicate, LowerError};
use crate::layout::{OperandRef, OperandValue, PlaceRef};
use crate::model::CxView;
use vstd::prelude::*;

verus! {

impl Builder {
    /// The element type of the array that a place's pointer points to.
    pub open spec fn element_of(cx: CxView, llval: RValue) -> Option<Type> {
        match cx.pointee(cx.type_of(llval)) {
            Some(array) => cx.element(array),
            None => None,
        }
    }

    /// The address of element `index` of the array behind `llval`: a zero
    /// of the unsigned pointer-sized type, the array as a location, and the
    /// address of its element.
    pub open spec fn spec_project(cx: CxView, llval: RValue, index: RValue) -> CxView {
        let c1 = cx.with_node(Node::UintBig { value: 0 }, Type { id: 13 });
        Builder::element_address(c1.with_deref(llval), c1.next_value(), index)
    }

    fn project_index(&mut self, cx: &mut CodegenCx, llval: RValue, index: RValue) -> (r: RValue)
        requires
            old(cx).wf(),
            old(cx)@.valid_rvalue(llval),
            old(cx)@.valid_rvalue(index),
            Builder::element_of(old(cx)@, llval) is Some,
        ensures
            final(cx).wf(),
            final(cx)@ == Builder::spec_project(old(cx)@, llval, index),
            r.id == old(cx)@.values.len() + 3,
            final(cx)@.valid_rvalue(r),
            final(cx)@.kind(final(cx)@.type_of(r)) == (TypeKind::Pointer {
                pointee: Builder::element_of(old(cx)@, llval)->0,
            }),
            *final(self) == *old(self),
            old(cx)@.grows_to(final(cx)@),
    {
        let zero = cx.const_usize(0);
        let indices = vec![zero, index];
        proof {
            assert(indices@ =~= seq![zero, index]);
        }
        match self.inbounds_gep(cx, llval, &indices) {
            Ok(v) => v,
            Err(_) => llval,
        }
    }

    /// The two ends of the loop: zero and the count as constants, then the
    /// address of the first element and the address one past the last.
    #[verifier::opaque]
    pub open spec fn spec_bounds(cx: CxView, llval: RValue, count: u64) -> CxView {
        let c1 = cx.with_node(Node::UintBig { value: 0 }, Type { id: 13 });
        let c2 = c1.with_node(Node::UintBig { value: count as u128 }, Type { id: 13 });
        let c3 = Builder::spec_project(c2, llval, cx.next_value());
        Builder::spec_project(c3, llval, c1.next_value())
    }

    fn repeat_bounds(&mut self, cx: &mut CodegenCx, llval: RValue, count: u64) -> (r: (
        RValue,
        RValue,
    ))
        requires
            old(cx).wf(),
            old(cx)@.valid_rvalue(llval),
            Builder::element_of(old(cx)@, llval) is Some,
        ensures
            final(cx).wf(),
            final(cx)@ == Builder::spec_bounds(old(cx)@, llval, count),
            r.0.id == old(cx)@.values.len() + 5,
            r.1.id == old(cx)@.values.len() + 9,
            final(cx)@.values.len() == old(cx)@.values.len() + 10,
            final(cx)@.valid_rvalue(r.0),
            final(cx)@.valid_rvalue(r.1),
            final(cx)@.kind(final(cx)@.type_of(r.0)) == (TypeKind::Pointer {
                pointee: Builder::element_of(old(cx)@, llval)->0,
            }),
            final(cx)@.blocks == old(cx)@.blocks,
            final(cx)@.current_block == old(cx)@.current_block,
            *final(self) == *old(self),
            old(cx)@.grows_to(final(cx)@),
    {
        proof {
            reveal(Builder::spec_bounds);
        }
        let ghost pre = cx@;
        let zero = cx.const_usize(0);
        let count = cx.const_usize(count);
        proof {
            pre.lemma_grows_keeps_value(cx@, llval);
            pre.lemma_grows_keeps_type(cx@, pre.type_of(llval));
            pre.lemma_grows_keeps_type(cx@, pre.pointee(pre.type_of(llval))->0);
        }
        let ghost mid = cx@;
        let start = self.project_index(cx, llval, zero);
        proof {
            mid.lemma_grows_keeps_value(cx@, llval);
            mid.lemma_grows_keeps_type(cx@, mid.type_of(llval));
            mid.lemma_grows_keeps_type(cx@, mid.pointee(mid.type_of(llval))->0);
        }
        let ghost after_start = cx@;
        let end = self.project_index(cx, llval, count);
        proof {
            after_start.lemma_grows_keeps_value(cx@, start);
            after_start.lemma_grows_keeps_type(cx@, after_start.type_of(start));
        }
        (start, end)
    }

    /// The three blocks of the loop, created in the order header, body,
    /// next; the context's cursor ends on the last.
    #[verifier::opaque]
    pub open spec fn spec_repeat_blocks(cx: CxView, func: usize) -> CxView {
        let header = cx.next_block();
        let body = Block { id: (cx.blocks.len() + 1) as usize };
        let next = Block { id: (cx.blocks.len() + 2) as usize };
        cx.with_block(func, "repeat_loop_header"@).position(header).with_block(
            func,
            "repeat_loop_body"@,
        ).position(body).with_block(func, "repeat_loop_next"@).position(next)
    }

    fn repeat_blocks(&self, cx: &mut CodegenCx) -> (r: (Builder, Builder, Builder))
        requires
            old(cx).wf(),
            self.ready(old(cx)@),
        ensures
            final(cx).wf(),
            final(cx)@ == Builder::spec_repeat_blocks(old(cx)@, old(cx)@.owner(self.at())->id),
            r.0.block == Some(old(cx)@.next_block()),
            r.1.block == Some(Block { id: (old(cx)@.blocks.len() + 1) as usize }),
            r.2.block == Some(Block { id: (old(cx)@.blocks.len() + 2) as usize }),
            r.0.at().id == old(cx)@.blocks.len(),
            r.1.at().id == old(cx)@.blocks.len() + 1,
            r.2.at().id == old(cx)@.blocks.len() + 2,
            r.0.ready(final(cx)@),
            r.1.ready(final(cx)@),
            r.2.ready(final(cx)@),
            self.ready(final(cx)@),
            final(cx)@.values == old(cx)@.values,
            final(cx)@.owner(self.at()) == old(cx)@.owner(self.at()),
            old(cx)@.grows_to(final(cx)@),
    {
        proof {
            reveal(Builder::spec_repeat_blocks);
        }
        let header_bx = self.build_sibling_block(cx, "repeat_loop_header");
        let body_bx = self.build_sibling_block(cx, "repeat_loop_body");
        let next_bx = self.build_sibling_block(cx, "repeat_loop_next");
        (header_bx, body_bx, next_bx)
    }

    /// The entry of the loop: the loop variable, a slot of the type of
    /// `start` named `loop_var`; in the builder's block, its assignment
    /// from `start` and the jump to the header; in the header, the test
    /// whether the variable differs from `end`, and the branch on it to the
    /// body or to what follows the loop.
    #[verifier::opaque]
    pub open spec fn spec_enter(
        cx: CxView,
        at: Block,
        header: Block,
        body: Block,
        next: Block,
        start: RValue,
        end: RValue,
    ) -> CxView {
        let current = cx.next_place();
        let c1 = cx.with_local(cx.owner(at)->id, cx.type_of(start), SlotName::LoopVar);
        let c2 = c1.emit(at, Statement::Assign { place: current, value: start }).terminate(
            at,
            Terminator::Jump { target: header },
            seq![],
        );
        let c3 = c2.with_comparison(ComparisonOp::NotEquals, current.to_value(), end);
        c3.terminate(
            header,
            Terminator::Conditional { cond: c2.next_value(), on_true: body, on_false: next },
            seq![],
        )
    }

    fn repeat_enter(
        &mut self,
        cx: &mut CodegenCx,
        header_bx: Builder,
        body: Block,
        next: Block,
        start: RValue,
        end: RValue,
    ) -> (r: LValue)
        requires
            old(cx).wf(),
            old(self).ready(old(cx)@),
            header_bx.ready(old(cx)@),
            header_bx.at() != old(self).at(),
            old(cx)@.open_block(body),
            old(cx)@.open_block(next),
            body != old(self).at(),
            body != header_bx.at(),
            next != old(self).at(),
            next != header_bx.at(),
            old(cx)@.valid_rvalue(start),
            old(cx)@.valid_rvalue(end),
        ensures
            final(cx).wf(),
            final(cx)@ == Builder::spec_enter(
                old(cx)@,
                old(self).at(),
                header_bx.at(),
                body,
                next,
                start,
                end,
            ),
            r == old(cx)@.next_place(),
            final(cx)@.valid_lvalue(r),
            final(cx)@.type_of(r.to_value()) == old(cx)@.type_of(start),
            final(cx)@.open_block(body),
            final(cx)@.open_block(next),
            !final(cx)@.open_block(old(self).at()),
            final(cx)@.values.len() == old(cx)@.values.len() + 2,
            *final(self) == *old(self),
            old(cx)@.grows_to(final(cx)@),
    {
        proof {
            reveal(Builder::spec_enter);
        }
        let func = self.current_func(cx);
        let ptr_type = cx.val_ty(start);
        let current = cx.new_local(func, ptr_type, SlotName::LoopVar);
        let current_val = current.to_rvalue();
        self.assign(cx, current, start);
        self.br(cx, header_bx.llbb());
        let mut header_bx = header_bx;
        let keep_going = header_bx.icmp(cx, IntPredicate::IntNE, current_val, end);
        header_bx.cond_br(cx, keep_going, body, next);
        current
    }

    /// The step of the loop: the element width as a constant, the loop
    /// variable as an integer, their sum, the sum as a pointer of type
    /// `ptr_type`; then, in the body, the assignment of that pointer to the
    /// loop variable and the jump back to the header.
    #[verifier::opaque]
    pub open spec fn spec_advance(
        cx: CxView,
        body: Block,
        header: Block,
        current: LValue,
        ptr_type: Type,
        width: u64,
    ) -> CxView {
        let c1 = cx.with_node(Node::UintBig { value: width as u128 }, Type { id: 13 });
        let c2 = c1.with_node(Node::Cast { value: current.to_value() }, Type { id: 13 });
        let c3 = c2.with_binary(BinaryOp::Plus, c1.next_value(), cx.next_value());
        let c4 = c3.with_node(Node::Cast { value: c2.next_value() }, ptr_type);
        c4.emit(body, Statement::Assign { place: current, value: c3.next_value() }).terminate(
            body,
            Terminator::Jump { target: header },
            seq![],
        )
    }

    fn repeat_advance(
        cx: &mut CodegenCx,
        body_bx: Builder,
        header: Block,
        current: LValue,
        ptr_type: Type,
        width: u64,
    )
        requires
            old(cx).wf(),
            body_bx.ready(old(cx)@),
            old(cx)@.valid_block(header),
            old(cx)@.valid_lvalue(current),
            old(cx)@.valid_type(ptr_type),
        ensures
            final(cx).wf(),
            final(cx)@ == Builder::spec_advance(
                old(cx)@,
                body_bx.at(),
                header,
                current,
                ptr_type,
                width,
            ),
            old(cx)@.same_blocks_except(final(cx)@, body_bx.at()),
            old(cx)@.grows_to(final(cx)@),
    {
        proof {
            reveal(Builder::spec_advance);
        }
        let mut body_bx = body_bx;
        let ptr_value = cx.const_usize(width);
        let usize_type = cx.type_usize();
        let current_int = body_bx.ptrtoint(cx, current.to_rvalue(), usize_type);
        let next = cx.binary(BinaryOp::Plus, current_int, ptr_value);
        let next = body_bx.inttoptr(cx, next, ptr_type);
        cx.add_assignment(body_bx.llbb(), current, next);
        body_bx.br(cx, header);
    }

    /// Why an operand cannot be stored to every element of the array at a
    /// place, if it cannot: the place's pointer does not point to something
    /// with elements, or the operand cannot be stored to an element.
    pub open spec fn repeat_error(cx: CxView, cg_elem: OperandRef, dest: PlaceRef) -> Option<
        LowerError,
    > {
        match Builder::element_of(cx, dest.llval) {
            None => Some(LowerError::UnexpectedType),
            Some(elem) => Builder::store_error_at(cx, cg_elem.val, cg_elem.layout, Some(elem)),
        }
    }

    /// The place of the element that the loop variable points to.
    pub open spec fn element_place(
        current: LValue,
        cg_elem: OperandRef,
        dest: PlaceRef,
    ) -> PlaceRef {
        PlaceRef {
            llval: current.to_value(),
            llextra: None,
            layout: cg_elem.layout,
            align: dest.align,
        }
    }

    /// The loop that stores an operand `count` times: the two ends, the
    /// three blocks, the entry, the store of the operand to the element
    /// that the loop variable points to, in the body, and the step by the
    /// width of an element.
    pub open spec fn spec_repeat(
        cx: CxView,
        at: Block,
        cg_elem: OperandRef,
        count: u64,
        dest: PlaceRef,
    ) -> CxView {
        let start = RValue { id: (cx.values.len() + 5) as usize };
        let end = RValue { id: (cx.values.len() + 9) as usize };
        let current = LValue { id: (cx.values.len() + 10) as usize };
        let header = cx.next_block();
        let body = Block { id: (cx.blocks.len() + 1) as usize };
        let next = Block { id: (cx.blocks.len() + 2) as usize };
        let c1 = Builder::spec_bounds(cx, dest.llval, count);
        let c2 = Builder::spec_repeat_blocks(c1, cx.owner(at)->id);
        let c3 = Builder::spec_enter(c2, at, header, body, next, start, end);
        let c4 = Builder::spec_store_operand(
            c3,
            body,
            cg_elem.val,
            Builder::element_place(current, cg_elem, dest),
        );
        Builder::spec_advance(c4, body, header, current, c1.type_of(start), cg_elem.layout.size)
    }

    /// Stores an operand to each of the `count` elements of the array at a
    /// place, by a loop that the builder's block enters. The loop runs as
    /// long as the address that it stores to differs from the address one
    /// past the last element, and steps by the width of an element. The
    /// result is a builder on the block that follows the loop. An error
    /// leaves everything unchanged.
    pub fn write_operand_repeatedly(
        self,
        cx: &mut CodegenCx,
        cg_elem: OperandRef,
        count: u64,
        dest: PlaceRef,
    ) -> (r: Result<Builder, LowerError>)
        requires
            old(cx).wf(),
            self.ready(old(cx)@),
            Builder::valid_operand(old(cx)@, cg_elem.val),
            old(cx)@.valid_rvalue(dest.llval),
        ensures
            final(cx).wf(),
            match Builder::repeat_error(old(cx)@, cg_elem, dest) {
                Some(e) => final(cx)@ == old(cx)@ && r == Err::<Builder, LowerError>(e),
                None => {
                    &&& final(cx)@ == Builder::spec_repeat(old(cx)@, self.at(), cg_elem, count, dest)
                    &&& r matches Ok(next_bx)
                    &&& next_bx.block == Some(Block { id: (old(cx)@.blocks.len() + 2) as usize })
                    &&& next_bx.at().id == old(cx)@.blocks.len() + 2
                    &&& next_bx.ready(final(cx)@)
                    &&& !final(cx)@.open_block(self.at())
                },
            },
            old(cx)@.grows_to(final(cx)@),
    {
        let ghost pre = cx@;
        let mut this = self;
        let ty = cx.val_ty(dest.llval);
        let elem = match cx.pointee(ty) {
            Some(array) => cx.element_type(array),
            None => None,
        };
        let elem = match elem {
            Some(elem) => elem,
            None => {
                return Err(LowerError::UnexpectedType);
            },
        };
        match Builder::check_store_at(cx, cg_elem.val, cg_elem.layout, elem) {
            Some(e) => {
                return Err(e);
            },
            None => {},
        }
        let (start, end) = this.repeat_bounds(cx, dest.llval, count);
        let ghost c1 = cx@;
        let ptr_type = cx.val_ty(start);
        let (header_bx, mut body_bx, next_bx) = this.repeat_blocks(cx);
        let ghost c2 = cx@;
        proof {
            c1.lemma_grows_keeps_value(c2, start);
            c1.lemma_grows_keeps_value(c2, end);
        }
        let current = this.repeat_enter(cx, header_bx, body_bx.llbb(), next_bx.llbb(), start, end);
        let ghost c3 = cx@;
        proof {
            pre.lemma_grows_keeps_value(c1, dest.llval);
            pre.lemma_grows_keeps_type(c1, pre.type_of(dest.llval));
            pre.lemma_grows_keeps_type(c1, pre.pointee(pre.type_of(dest.llval))->0);
            pre.lemma_grows_keeps_type(c1, elem);
            c1.lemma_grows_keeps_type(c2, elem);
            c2.lemma_grows_keeps_type(c3, elem);
            c1.lemma_grows_keeps_type(c2, ptr_type);
            c2.lemma_grows_keeps_type(c3, ptr_type);
            Builder::lemma_valid_operand_grows(pre, c1, cg_elem.val);
            Builder::lemma_valid_operand_grows(c1, c2, cg_elem.val);
            Builder::lemma_valid_operand_grows(c2, c3, cg_elem.val);
        }
        let place = PlaceRef {
            llval: current.to_rvalue(),
            llextra: None,
            layout: cg_elem.layout,
            align: dest.align,
        };
        match body_bx.store_operand(cx, cg_elem.val, place) {
            Ok(()) => {},
            Err(_) => {},
        }
        let ghost c4 = cx@;
        proof {
            c3.lemma_grows_keeps_type(c4, ptr_type);
            c3.lemma_grows_keeps_value(c4, current.to_value());
        }
        Builder::repeat_advance(
            cx,
            body_bx,
            header_bx.llbb(),
            current,
            ptr_type,
            cg_elem.layout.size,
        );
        Ok(next_bx)
    }

    /// Decides whether an operand can be stored to a place of the given
    /// layout behind a pointer to `pointee`.
    pub fn check_store_at(
        cx: &CodegenCx,
        val: OperandValue,
        layout: crate::layout::Layout,
        pointee: Type,
    ) -> (r: Option<LowerError>)
        requires
            cx.wf(),
            cx@.valid_type(pointee),
        ensures
            r == Builder::store_error_at(cx@, val, layout, Some(pointee)),
    {
        if layout.is_zst() {
            return None;
        }
        match val {
            OperandValue::Ref { extra, .. } => {
                if extra.is_some() {
                    Some(LowerError::Unsupported)
                } else {
                    None
                }
            },
            OperandValue::Immediate { .. } => None,
            OperandValue::Pair { .. } => {
                match layout.abi {
                    crate::layout::Abi::ScalarPair { .. } => {
                        match Builder::check_member(cx, pointee, 0) {
                            Some(e) => Some(e),
                            None => Builder::check_member(cx, pointee, 1),
                        }
                    },
                    _ => Some(LowerError::UnexpectedType),
                }
            },
        }
    }

    /// The values of an operand stay valid as the context grows.
    pub proof fn lemma_valid_operand_grows(pre: CxView, next: CxView, val: OperandValue)
        requires
            pre.grows_to(next),
            Builder::valid_operand(pre, val),
        ensures
            Builder::valid_operand(next, val),
    {
    }
}

} // verus!
