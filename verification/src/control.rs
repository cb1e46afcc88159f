//! Control flow that needs more than one terminator: the end of a path
//! that is never taken, the choice between two values, and the multi-way
//! branch.

use crate::builder::Builder;
use crate::context::CodegenCx;
use crate::ir::{Block, Case, Function, LValue, Node, RValue, SlotName, Statement, Terminator, Type};
use crate::kinds::Builtin;
use crate::model::CxView;
use vstd::prelude::*;

verus! {

impl Builder {
    /// The end of a path that is never taken: the evaluation of a call of
    /// the no-return builtin, then a return that agrees with the function's
    /// return type. For a function that returns a value, that is the return
    /// of a new slot named `unreachableReturn`, which holds nothing.
    pub open spec fn spec_unreachable(cx: CxView, at: Block) -> CxView {
        let func = cx.owner(at);
        let c1 = cx.with_call(Function::Builtin { which: Builtin::Unreachable }, Type { id: 0 }, seq![]);
        let c2 = c1.emit(at, Statement::Eval { value: cx.next_value() });
        if cx.return_type(func) == (Type { id: 0 }) {
            c2.terminate(at, Terminator::VoidReturn, seq![])
        } else {
            let c3 = c2.with_local(func->id, cx.return_type(func), SlotName::UnreachableReturn);
            c3.terminate(at, Terminator::Return { value: c2.next_value() }, seq![])
        }
    }

    /// Closes the block as the end of a path that is never taken.
    pub fn unreachable(&mut self, cx: &mut CodegenCx)
        requires
            old(cx).wf(),
            old(self).ready(old(cx)@),
        ensures
            final(cx).wf(),
            final(cx)@ == Builder::spec_unreachable(old(cx)@, old(self).at()),
            !final(cx)@.open_block(old(self).at()),
            *final(self) == *old(self),
            old(cx)@.grows_to(final(cx)@),
    {
        let func = Function::Builtin { which: Builtin::Unreachable };
        let block = self.llbb();
        let void_type = cx.type_void();
        let call = cx.new_call(func, void_type, Vec::new());
        cx.add_eval(block, call);
        let owner = cx.get_function(block);
        let return_type = cx.get_return_type(owner);
        if return_type == void_type {
            cx.end_with_void_return(block)
        } else {
            let return_value = cx.new_local(owner, return_type, SlotName::UnreachableReturn);
            cx.end_with_return(block, return_value.to_rvalue())
        }
    }

    /// The block of a select that assigns `value` to the merge slot and
    /// jumps to `after`.
    pub open spec fn arm(
        cx: CxView,
        block: Block,
        slot: LValue,
        value: RValue,
        after: Block,
    ) -> CxView {
        cx.emit(block, Statement::Assign { place: slot, value }).terminate(
            block,
            Terminator::Jump { target: after },
            seq![],
        )
    }

    /// A select: a merge slot of the type of `then_val`, three new blocks
    /// `then`, `else` and `after`, the builder's block closed with a branch
    /// on `cond` to the first two, each of which assigns its value to the
    /// slot and jumps to the third, and the cursor moved to the third.
    pub open spec fn spec_select(
        cx: CxView,
        at: Block,
        cond: RValue,
        then_val: RValue,
        else_val: RValue,
    ) -> CxView {
        let func = cx.owner(at)->id;
        let slot = cx.next_place();
        let then_block = cx.next_block();
        let else_block = Block { id: (cx.blocks.len() + 1) as usize };
        let after_block = Block { id: (cx.blocks.len() + 2) as usize };
        let c1 = cx.with_local(func, cx.type_of(then_val), SlotName::SelectVar);
        let c2 = c1.with_block(func, "then"@).with_block(func, "else"@).with_block(func, "after"@);
        let c3 = c2.terminate(
            at,
            Terminator::Conditional { cond, on_true: then_block, on_false: else_block },
            seq![],
        );
        let c4 = Builder::arm(c3, then_block, slot, then_val, after_block);
        let c5 = Builder::arm(c4, else_block, slot, else_val, after_block);
        c5.position(after_block)
    }

    /// One of two values by a condition. The result is the merge slot, read
    /// in the block `after`, on which the builder and the context's cursor
    /// stand afterwards.
    pub fn select(
        &mut self,
        cx: &mut CodegenCx,
        cond: RValue,
        then_val: RValue,
        else_val: RValue,
    ) -> (r: RValue)
        requires
            old(cx).wf(),
            old(self).ready(old(cx)@),
            old(cx)@.valid_rvalue(cond),
            old(cx)@.valid_rvalue(then_val),
            old(cx)@.valid_rvalue(else_val),
        ensures
            final(cx).wf(),
            final(cx)@ == Builder::spec_select(old(cx)@, old(self).at(), cond, then_val, else_val),
            r == old(cx)@.next_value(),
            final(cx)@.valid_rvalue(r),
            final(self).block == Some(Block { id: (old(cx)@.blocks.len() + 2) as usize }),
            final(self).at().id == old(cx)@.blocks.len() + 2,
            final(self).ready(final(cx)@),
            !final(cx)@.open_block(old(self).at()),
            old(cx)@.grows_to(final(cx)@),
    {
        let func = self.current_func(cx);
        let ty = cx.val_ty(then_val);
        let variable = cx.new_local(func, ty, SlotName::SelectVar);
        let then_block = cx.new_block(func, "then");
        let else_block = cx.new_block(func, "else");
        let after_block = cx.new_block(func, "after");
        cx.end_with_conditional(self.llbb(), cond, then_block, else_block);

        cx.add_assignment(then_block, variable, then_val);
        cx.end_with_jump(then_block, after_block);

        cx.add_assignment(else_block, variable, else_val);
        cx.end_with_jump(else_block, after_block);

        self.block = Some(after_block);
        cx.set_current_block(after_block);

        variable.to_rvalue()
    }

    /// The constants of a switch: one node of type `ty` for each of the
    /// first `n` match values, in order.
    pub open spec fn case_constants(
        cx: CxView,
        ty: Type,
        cases: Seq<(u128, Block)>,
        n: int,
    ) -> CxView {
        CxView {
            values: cx.values + Seq::new(
                n as nat,
                |i: int| crate::ir::ValueView { node: Node::UintBig { value: cases[i].0 }, ty, args: seq![] },
            ),
            ..cx
        }
    }

    /// The cases of a switch: the `i`-th matches the `i`-th constant alone
    /// and goes to the `i`-th destination.
    pub open spec fn case_list(cx: CxView, cases: Seq<(u128, Block)>, n: int) -> Seq<Case> {
        Seq::new(
            n as nat,
            |i: int|
                Case {
                    min: RValue { id: (cx.values.len() + i) as usize },
                    max: RValue { id: (cx.values.len() + i) as usize },
                    dest: cases[i].1,
                },
        )
    }

    /// A switch: the constants, then the builder's block closed with a
    /// switch on `value` over the cases and the default destination.
    pub open spec fn spec_switch(
        cx: CxView,
        at: Block,
        value: RValue,
        default_block: Block,
        cases: Seq<(u128, Block)>,
    ) -> CxView {
        Builder::case_constants(cx, cx.type_of(value), cases, cases.len() as int).terminate(
            at,
            Terminator::Switch { value, default: default_block },
            Builder::case_list(cx, cases, cases.len() as int),
        )
    }

    /// Closes the block with a multi-way branch: a value equal to the match
    /// value of a case goes to that case's block, any other value to the
    /// default block.
    pub fn switch(
        &mut self,
        cx: &mut CodegenCx,
        value: RValue,
        default_block: Block,
        cases: &Vec<(u128, Block)>,
    )
        requires
            old(cx).wf(),
            old(self).ready(old(cx)@),
            old(cx)@.valid_rvalue(value),
            old(cx)@.valid_block(default_block),
            forall|i: int| 0 <= i < cases@.len() ==> old(cx)@.valid_block((#[trigger] cases@[i]).1),
        ensures
            final(cx).wf(),
            final(cx)@ == Builder::spec_switch(old(cx)@, old(self).at(), value, default_block, cases@),
            !final(cx)@.open_block(old(self).at()),
            *final(self) == *old(self),
            old(cx)@.grows_to(final(cx)@),
    {
        let ghost pre = cx@;
        let typ = cx.val_ty(value);
        let mut gcc_cases: Vec<Case> = Vec::new();
        let mut i: usize = 0;
        while i < cases.len()
            invariant
                i <= cases@.len(),
                cx.wf(),
                pre.wf(),
                pre.valid_type(typ),
                cx@ == Builder::case_constants(pre, typ, cases@, i as int),
                gcc_cases@ == Builder::case_list(pre, cases@, i as int),
                forall|k: int| 0 <= k < cases@.len() ==> pre.valid_block((#[trigger] cases@[k]).1),
            decreases cases@.len() - i,
        {
            let (on_val, dest) = cases[i];
            let on_val = cx.const_uint_big(typ, on_val);
            gcc_cases.push(Case { min: on_val, max: on_val, dest });
            proof {
                let next = Builder::case_constants(pre, typ, cases@, i + 1);
                assert(cx@.values =~= next.values);
                assert(cx@ =~= next);
                assert(gcc_cases@ =~= Builder::case_list(pre, cases@, i + 1));
            }
            i += 1;
        }
        proof {
            assert forall|k: int| 0 <= k < gcc_cases@.len() implies cx@.case_ok(
                #[trigger] gcc_cases@[k],
            ) by {
                assert(pre.valid_block(cases@[k].1));
            }
        }
        cx.end_with_switch(self.llbb(), value, default_block, gcc_cases);
    }
}

} // verus!
