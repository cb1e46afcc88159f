//! Atomic instructions. Each becomes a call of the builtin that performs it,
//! with the memory order as an integer argument.

use crate::builder::Builder;
use crate::context::CodegenCx;
use crate::ir::{Block, Function, Node, RValue, Statement, Type};
use crate::kinds::{AtomicOrdering, AtomicRmwBinOp, Builtin, LowerError, SynchronizationScope};
use crate::model::CxView;
use vstd::prelude::*;

verus! {

impl Builder {
    /// The memory order as a constant of the 32-bit integer type.
    pub open spec fn with_order(cx: CxView, order: AtomicOrdering) -> CxView {
        cx.with_node(Node::Int { value: order.spec_code() }, Type { id: 4 })
    }

    fn order_constant(cx: &mut CodegenCx, order: AtomicOrdering) -> (r: RValue)
        requires
            old(cx).wf(),
        ensures
            final(cx).wf(),
            final(cx)@ == Builder::with_order(old(cx)@, order),
            r == old(cx)@.next_value(),
            final(cx)@.valid_rvalue(r),
            old(cx)@.grows_to(final(cx)@),
    {
        let ty = cx.type_int(32);
        cx.new_rvalue_from_long(ty, order.code())
    }

    /// A builtin call that is evaluated in `block` for its effects.
    pub open spec fn evaluated(
        cx: CxView,
        block: Block,
        which: Builtin,
        args: Seq<RValue>,
    ) -> CxView {
        cx.with_call(Function::Builtin { which }, Type { id: 0 }, args).emit(
            block,
            Statement::Eval { value: cx.next_value() },
        )
    }

    pub(crate) fn evaluate(cx: &mut CodegenCx, block: Block, which: Builtin, args: Vec<RValue>)
        requires
            old(cx).wf(),
            old(cx)@.open_block(block),
            old(cx)@.valid_rvalues(args@),
        ensures
            final(cx).wf(),
            final(cx)@ == Builder::evaluated(old(cx)@, block, which, args@),
            final(cx)@.open_block(block),
            old(cx)@.same_blocks_except(final(cx)@, block),
            old(cx)@.grows_to(final(cx)@),
    {
        let void_type = cx.type_void();
        let call = cx.new_call(Function::Builtin { which }, void_type, args);
        cx.add_eval(block, call);
    }

    /// An atomic load: the order, then the call of the load builtin on the
    /// pointer and the order, bound to a fresh slot of the pointee's type
    /// in the builder's block.
    pub open spec fn spec_atomic_load(
        cx: CxView,
        at: Block,
        ptr: RValue,
        order: AtomicOrdering,
    ) -> CxView {
        Builder::into_slot(
            Builder::with_order(cx, order),
            at,
            Node::Call { func: Function::Builtin { which: Builtin::AtomicLoadN } },
            cx.pointee(cx.type_of(ptr))->0,
            seq![ptr, cx.next_value()],
        )
    }

    /// Loads through a pointer atomically; the result is the slot that
    /// holds the loaded value.
    pub fn atomic_load(
        &mut self,
        cx: &mut CodegenCx,
        ptr: RValue,
        order: AtomicOrdering,
        size: u64,
    ) -> (r: RValue)
        requires
            old(cx).wf(),
            old(self).ready(old(cx)@),
            old(cx)@.valid_rvalue(ptr),
            old(cx)@.is_pointer(old(cx)@.type_of(ptr)),
        ensures
            final(cx).wf(),
            final(cx)@ == Builder::spec_atomic_load(old(cx)@, old(self).at(), ptr, order),
            r.id == old(cx)@.values.len() + 1,
            final(cx)@.valid_rvalue(r),
            *final(self) == *old(self),
            final(self).ready(final(cx)@),
            old(cx)@.grows_to(final(cx)@),
    {
        let ptr_ty = cx.val_ty(ptr);
        let ty = cx.pointee(ptr_ty).unwrap();
        let ordering = Builder::order_constant(cx, order);
        let args = vec![ptr, ordering];
        proof {
            assert(args@ =~= seq![ptr, ordering]);
        }
        Builder::call_into_slot(
            cx,
            self.llbb(),
            Node::Call { func: Function::Builtin { which: Builtin::AtomicLoadN } },
            ty,
            args,
        )
    }

    /// An atomic store: the order, then the evaluation of the store builtin
    /// on the pointer, the value and the order.
    pub open spec fn spec_atomic_store(
        cx: CxView,
        at: Block,
        value: RValue,
        ptr: RValue,
        order: AtomicOrdering,
    ) -> CxView {
        Builder::evaluated(
            Builder::with_order(cx, order),
            at,
            Builtin::AtomicStoreN,
            seq![ptr, value, cx.next_value()],
        )
    }

    /// Stores a value through a pointer atomically.
    pub fn atomic_store(
        &mut self,
        cx: &mut CodegenCx,
        value: RValue,
        ptr: RValue,
        order: AtomicOrdering,
        size: u64,
    )
        requires
            old(cx).wf(),
            old(self).ready(old(cx)@),
            old(cx)@.valid_rvalue(value),
            old(cx)@.valid_rvalue(ptr),
        ensures
            final(cx).wf(),
            final(cx)@ == Builder::spec_atomic_store(old(cx)@, old(self).at(), value, ptr, order),
            *final(self) == *old(self),
            final(self).ready(final(cx)@),
            old(cx)@.grows_to(final(cx)@),
    {
        let ordering = Builder::order_constant(cx, order);
        let args = vec![ptr, value, ordering];
        proof {
            assert(args@ =~= seq![ptr, value, ordering]);
        }
        Builder::evaluate(cx, self.llbb(), Builtin::AtomicStoreN, args);
    }

    /// A compare-and-exchange: the two orders, the weakness flag as a
    /// boolean constant, then the call of the builtin on destination,
    /// expected value, new value, flag and orders, bound to a fresh boolean
    /// slot in the builder's block.
    pub open spec fn spec_atomic_exchange_if(
        cx: CxView,
        at: Block,
        dst: RValue,
        expected: RValue,
        src: RValue,
        order: AtomicOrdering,
        failure_order: AtomicOrdering,
        weak: bool,
    ) -> CxView {
        let c1 = Builder::with_order(cx, order);
        let c2 = Builder::with_order(c1, failure_order);
        let c3 = c2.with_node(Node::Int { value: if weak { 1 } else { 0 } }, Type { id: 1 });
        Builder::into_slot(
            c3,
            at,
            Node::Call { func: Function::Builtin { which: Builtin::AtomicCompareExchangeN } },
            Type { id: 1 },
            seq![dst, expected, src, c2.next_value(), cx.next_value(), c1.next_value()],
        )
    }

    /// Replaces what `dst` points to by `src` if it equals `cmp`,
    /// atomically; the result is the slot that holds whether it did.
    pub fn atomic_cmpxchg(
        &mut self,
        cx: &mut CodegenCx,
        dst: RValue,
        cmp: RValue,
        src: RValue,
        order: AtomicOrdering,
        failure_order: AtomicOrdering,
        weak: bool,
    ) -> (r: RValue)
        requires
            old(cx).wf(),
            old(self).ready(old(cx)@),
            old(cx)@.valid_rvalue(dst),
            old(cx)@.valid_rvalue(cmp),
            old(cx)@.valid_rvalue(src),
        ensures
            final(cx).wf(),
            final(cx)@ == Builder::spec_atomic_exchange_if(
                old(cx)@,
                old(self).at(),
                dst,
                cmp,
                src,
                order,
                failure_order,
                weak,
            ),
            r.id == old(cx)@.values.len() + 3,
            final(cx)@.valid_rvalue(r),
            *final(self) == *old(self),
            final(self).ready(final(cx)@),
            old(cx)@.grows_to(final(cx)@),
    {
        let ordering = Builder::order_constant(cx, order);
        let failure = Builder::order_constant(cx, failure_order);
        let bool_type = cx.type_bool();
        let flag = cx.new_rvalue_from_long(
            bool_type,
            if weak {
                1
            } else {
                0
            },
        );
        let args = vec![dst, cmp, src, flag, ordering, failure];
        proof {
            assert(args@ =~= seq![dst, cmp, src, flag, ordering, failure]);
        }
        Builder::call_into_slot(
            cx,
            self.llbb(),
            Node::Call { func: Function::Builtin { which: Builtin::AtomicCompareExchangeN } },
            bool_type,
            args,
        )
    }

    /// A read-modify-write through builtin `which`: the order, then the
    /// call of the builtin on destination, operand and order, bound to a
    /// fresh slot of the operand's type in the builder's block.
    pub open spec fn spec_atomic_rmw(
        cx: CxView,
        at: Block,
        which: Builtin,
        dst: RValue,
        src: RValue,
        order: AtomicOrdering,
    ) -> CxView {
        Builder::into_slot(
            Builder::with_order(cx, order),
            at,
            Node::Call { func: Function::Builtin { which } },
            cx.type_of(src),
            seq![dst, src, cx.next_value()],
        )
    }

    /// Updates what `dst` points to by an operation with `src`,
    /// atomically; the result is the slot that holds what the builtin
    /// returned. `Err(Unsupported)`, with nothing changed, exactly for the
    /// minimum and maximum operations.
    pub fn atomic_rmw(
        &mut self,
        cx: &mut CodegenCx,
        op: AtomicRmwBinOp,
        dst: RValue,
        src: RValue,
        order: AtomicOrdering,
    ) -> (r: Result<RValue, LowerError>)
        requires
            old(cx).wf(),
            old(self).ready(old(cx)@),
            old(cx)@.valid_rvalue(dst),
            old(cx)@.valid_rvalue(src),
        ensures
            final(cx).wf(),
            match op.spec_builtin() {
                Some(which) => {
                    &&& final(cx)@ == Builder::spec_atomic_rmw(
                        old(cx)@,
                        old(self).at(),
                        which,
                        dst,
                        src,
                        order,
                    )
                    &&& r matches Ok(v)
                    &&& v.id == old(cx)@.values.len() + 1
                    &&& final(cx)@.valid_rvalue(v)
                },
                None => final(cx)@ == old(cx)@ && r == Err::<RValue, LowerError>(
                    LowerError::Unsupported,
                ),
            },
            *final(self) == *old(self),
            final(self).ready(final(cx)@),
            old(cx)@.grows_to(final(cx)@),
    {
        let which = match op.builtin() {
            Some(which) => which,
            None => {
                return Err(LowerError::Unsupported);
            },
        };
        let ty = cx.val_ty(src);
        let ordering = Builder::order_constant(cx, order);
        let args = vec![dst, src, ordering];
        proof {
            assert(args@ =~= seq![dst, src, ordering]);
        }
        Ok(
            Builder::call_into_slot(
                cx,
                self.llbb(),
                Node::Call { func: Function::Builtin { which } },
                ty,
                args,
            ),
        )
    }

    /// A fence: the order, then the evaluation of the fence builtin of the
    /// scope on the order.
    pub open spec fn spec_atomic_fence(
        cx: CxView,
        at: Block,
        order: AtomicOrdering,
        scope: SynchronizationScope,
    ) -> CxView {
        Builder::evaluated(
            Builder::with_order(cx, order),
            at,
            scope.spec_fence(),
            seq![cx.next_value()],
        )
    }

    /// Emits a memory fence.
    pub fn atomic_fence(
        &mut self,
        cx: &mut CodegenCx,
        order: AtomicOrdering,
        scope: SynchronizationScope,
    )
        requires
            old(cx).wf(),
            old(self).ready(old(cx)@),
        ensures
            final(cx).wf(),
            final(cx)@ == Builder::spec_atomic_fence(old(cx)@, old(self).at(), order, scope),
            *final(self) == *old(self),
            final(self).ready(final(cx)@),
            old(cx)@.grows_to(final(cx)@),
    {
        let which = scope.fence();
        let ordering = Builder::order_constant(cx, order);
        let args = vec![ordering];
        proof {
            assert(args@ =~= seq![ordering]);
        }
        Builder::evaluate(cx, self.llbb(), which, args);
    }
}

} // verus!
