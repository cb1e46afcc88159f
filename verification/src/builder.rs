//! The instruction builder: one operation for each instruction of the front
//! end. An operation emits into the block that the builder stands on and
//! hands back the handle of its result.

use crate::context::CodegenCx;
use crate::ir::{Block, Function, LValue, RValue, Statement, Terminator};
use crate::kinds::BinaryOp;
use crate::model::CxView;
use vstd::prelude::*;

verus! {

/// A cursor into the function that is being populated.
#[derive(Clone, Copy, Debug, PartialEq, Eq, Structural)]
pub struct Builder {
    /// The block that receives this builder's statements.
    pub block: Option<Block>,
}

impl Builder {
    /// The builder stands on a block that can receive statements.
    pub open spec fn ready(self, cx: CxView) -> bool {
        self.block matches Some(b) && cx.open_block(b)
    }

    /// The block that the builder stands on.
    pub open spec fn at(self) -> Block
        recommends
            self.block is Some,
    {
        self.block->0
    }

    /// A builder that stands nowhere yet.
    pub fn with_cx() -> (bx: Builder)
        ensures
            bx.block is None,
    {
        Builder { block: None }
    }

    /// The block that the builder stands on.
    pub fn llbb(&self) -> (b: Block)
        requires
            self.block is Some,
        ensures
            b == self.at(),
    {
        match self.block {
            Some(b) => b,
            None => Block { id: 0 },
        }
    }

    /// Moves this builder and the context's cursor to the end of a block.
    pub fn position_at_end(&mut self, cx: &mut CodegenCx, block: Block)
        requires
            old(cx).wf(),
            old(cx)@.valid_block(block),
        ensures
            final(cx).wf(),
            final(cx)@ == old(cx)@.position(block),
            final(self).block == Some(block),
            old(cx)@.grows_to(final(cx)@),
    {
        cx.set_current_block(block);
        self.block = Some(block);
    }

    /// A new block of a function, and a builder that stands on it. The
    /// context's cursor moves there too.
    pub fn new_block(cx: &mut CodegenCx, func: Function, name: &str) -> (bx: Builder)
        requires
            old(cx).wf(),
            old(cx)@.defined(func),
        ensures
            final(cx).wf(),
            final(cx)@ == old(cx)@.with_block(func->id, name@).position(old(cx)@.next_block()),
            bx.block == Some(old(cx)@.next_block()),
            bx.ready(final(cx)@),
            old(cx)@.grows_to(final(cx)@),
    {
        let block = cx.new_block(func, name);
        let mut bx = Builder::with_cx();
        bx.position_at_end(cx, block);
        bx
    }

    /// The function that owns the builder's block.
    pub fn current_func(&self, cx: &CodegenCx) -> (f: Function)
        requires
            cx.wf(),
            self.block matches Some(b) && cx@.valid_block(b),
        ensures
            f == cx@.owner(self.at()),
            cx@.defined(f),
    {
        cx.get_function(self.llbb())
    }

    /// A new block of the function that owns this builder's block, and a
    /// builder that stands on it. This builder stays where it is; the
    /// context's cursor moves to the new block.
    pub fn build_sibling_block(&self, cx: &mut CodegenCx, name: &str) -> (bx: Builder)
        requires
            old(cx).wf(),
            self.block matches Some(b) && old(cx)@.valid_block(b),
        ensures
            final(cx).wf(),
            final(cx)@ == old(cx)@.with_block(old(cx)@.owner(self.at())->id, name@).position(
                old(cx)@.next_block(),
            ),
            bx.block == Some(old(cx)@.next_block()),
            bx.ready(final(cx)@),
            old(cx)@.grows_to(final(cx)@),
    {
        let func = cx.get_function(self.llbb());
        Builder::new_block(cx, func, name)
    }

    /// Assigns a value to a location in the builder's block.
    pub fn assign(&self, cx: &mut CodegenCx, lvalue: LValue, value: RValue)
        requires
            old(cx).wf(),
            self.ready(old(cx)@),
            old(cx)@.valid_lvalue(lvalue),
            old(cx)@.valid_rvalue(value),
        ensures
            final(cx).wf(),
            final(cx)@ == old(cx)@.emit(self.at(), Statement::Assign { place: lvalue, value }),
            old(cx)@.grows_to(final(cx)@),
    {
        cx.add_assignment(self.llbb(), lvalue, value);
    }

    /// Updates a location by an operator and a value in the builder's
    /// block.
    pub fn assign_op(&self, cx: &mut CodegenCx, lvalue: LValue, binary_op: BinaryOp, value: RValue)
        requires
            old(cx).wf(),
            self.ready(old(cx)@),
            old(cx)@.valid_lvalue(lvalue),
            old(cx)@.valid_rvalue(value),
        ensures
            final(cx).wf(),
            final(cx)@ == old(cx)@.emit(
                self.at(),
                Statement::AssignOp { place: lvalue, op: binary_op, value },
            ),
            old(cx)@.grows_to(final(cx)@),
    {
        cx.add_assignment_op(self.llbb(), lvalue, binary_op, value);
    }

    // ----- terminators -----

    /// Closes the block with a return without a value.
    pub fn ret_void(&mut self, cx: &mut CodegenCx)
        requires
            old(cx).wf(),
            old(self).ready(old(cx)@),
        ensures
            final(cx).wf(),
            final(cx)@ == old(cx)@.terminate(old(self).at(), Terminator::VoidReturn, seq![]),
            !final(cx)@.open_block(old(self).at()),
            *final(self) == *old(self),
            old(cx)@.grows_to(final(cx)@),
    {
        cx.end_with_void_return(self.llbb());
    }

    /// Closes the block with the return of a value.
    pub fn ret(&mut self, cx: &mut CodegenCx, value: RValue)
        requires
            old(cx).wf(),
            old(self).ready(old(cx)@),
            old(cx)@.valid_rvalue(value),
        ensures
            final(cx).wf(),
            final(cx)@ == old(cx)@.terminate(old(self).at(), Terminator::Return { value }, seq![]),
            !final(cx)@.open_block(old(self).at()),
            *final(self) == *old(self),
            old(cx)@.grows_to(final(cx)@),
    {
        cx.end_with_return(self.llbb(), value);
    }

    /// Closes the block with a jump.
    pub fn br(&mut self, cx: &mut CodegenCx, dest: Block)
        requires
            old(cx).wf(),
            old(self).ready(old(cx)@),
            old(cx)@.valid_block(dest),
        ensures
            final(cx).wf(),
            final(cx)@ == old(cx)@.terminate(
                old(self).at(),
                Terminator::Jump { target: dest },
                seq![],
            ),
            !final(cx)@.open_block(old(self).at()),
            *final(self) == *old(self),
            old(cx)@.grows_to(final(cx)@),
    {
        cx.end_with_jump(self.llbb(), dest);
    }

    /// Closes the block with a two-way branch on a condition.
    pub fn cond_br(
        &mut self,
        cx: &mut CodegenCx,
        cond: RValue,
        then_block: Block,
        else_block: Block,
    )
        requires
            old(cx).wf(),
            old(self).ready(old(cx)@),
            old(cx)@.valid_rvalue(cond),
            old(cx)@.valid_block(then_block),
            old(cx)@.valid_block(else_block),
        ensures
            final(cx).wf(),
            final(cx)@ == old(cx)@.terminate(
                old(self).at(),
                Terminator::Conditional { cond, on_true: then_block, on_false: else_block },
                seq![],
            ),
            !final(cx)@.open_block(old(self).at()),
            *final(self) == *old(self),
            old(cx)@.grows_to(final(cx)@),
    {
        cx.end_with_conditional(self.llbb(), cond, then_block, else_block);
    }

    // ----- what has no effect on the target IR -----

    /// Notes the range of a loaded value. Nothing is emitted for it.
    pub fn range_metadata(&mut self, load: RValue, start: u128, end: u128)
        ensures
            *final(self) == *old(self),
    {
    }

    /// Notes that a loaded pointer is not null. Nothing is emitted for it.
    pub fn nonnull_metadata(&mut self, load: RValue)
        ensures
            *final(self) == *old(self),
    {
    }

    /// Marks the start of a slot's lifetime. Nothing is emitted for it.
    pub fn lifetime_start(&mut self, ptr: RValue, size: u64)
        ensures
            *final(self) == *old(self),
    {
    }

    /// Marks the end of a slot's lifetime. Nothing is emitted for it.
    pub fn lifetime_end(&mut self, ptr: RValue, size: u64)
        ensures
            *final(self) == *old(self),
    {
    }

    /// Notes that what a load gives never changes: the loaded value is
    /// recorded as the address of an ordinary function.
    pub fn set_invariant_load(&mut self, cx: &mut CodegenCx, load: RValue)
        requires
            old(cx).wf(),
            old(cx)@.valid_rvalue(load),
        ensures
            final(cx).wf(),
            final(cx)@ == old(cx)@.note_address(load),
            *final(self) == *old(self),
            old(cx)@.grows_to(final(cx)@),
    {
        cx.note_function_address(load);
    }
}

} // verus!
