//! What holds of every lowering: blocks are closed once and for all, a
//! switch sends each value where its case says, a call reinterprets exactly
//! the arguments that mismatch, and no two numbered slots share a name.

use crate::builder::Builder;
use crate::ir::{Block, Case, Node, RValue, Terminator, Type};
use crate::model::CxView;
use vstd::prelude::*;

verus! {

/// The integer that a constant node stands for.
pub open spec fn constant(cx: CxView, v: RValue) -> Option<int> {
    match cx.node(v) {
        Node::Int { value } => Some(value as int),
        Node::UintBig { value } => Some(value as int),
        _ => None,
    }
}

/// Whether a case matches `x`: its bounds are constants and `x` lies
/// between them, both included.
pub open spec fn case_matches(cx: CxView, c: Case, x: int) -> bool {
    constant(cx, c.min) matches Some(lo) && constant(cx, c.max) matches Some(hi) && lo <= x <= hi
}

/// Where a switch over `cases` sends `x`: to the destination of the first
/// case from position `from` on that matches, to `default` if none does.
pub open spec fn switch_target(
    cx: CxView,
    cases: Seq<Case>,
    default: Block,
    x: int,
    from: int,
) -> Block
    decreases cases.len() - from,
{
    if from < 0 || from >= cases.len() {
        default
    } else if case_matches(cx, cases[from], x) {
        cases[from].dest
    } else {
        switch_target(cx, cases, default, x, from + 1)
    }
}

/// A block that has its terminator is the same in every context that
/// lowering reaches from this one: no statement is added to it, and its
/// terminator and cases stay.
pub proof fn law_closed_block_is_final(pre: CxView, next: CxView, b: Block)
    requires
        pre.grows_to(next),
        pre.valid_block(b),
        !pre.open_block(b),
    ensures
        next.valid_block(b),
        !next.open_block(b),
        next.blocks[b.id as int] == pre.blocks[b.id as int],
{
}

/// What holds between a context and a later one holds across any number
/// of lowerings in between.
pub proof fn law_growth_composes(pre: CxView, mid: CxView, next: CxView)
    requires
        pre.grows_to(mid),
        mid.grows_to(next),
    ensures
        pre.grows_to(next),
{
    assert forall|i: int| 0 <= i < pre.blocks.len() implies {
        let a = #[trigger] pre.blocks[i];
        let b = next.blocks[i];
        &&& a.func == b.func
        &&& a.name == b.name
        &&& a.statements.is_prefix_of(b.statements)
        &&& (a.terminator is Some ==> b == a)
    } by {
        let m = mid.blocks[i];
        assert(pre.blocks[i].statements.is_prefix_of(m.statements));
    }
}

/// The statements of a block only ever grow at their end.
pub proof fn law_statements_are_appended(pre: CxView, next: CxView, b: Block, k: int)
    requires
        pre.grows_to(next),
        pre.valid_block(b),
        0 <= k < pre.blocks[b.id as int].statements.len(),
    ensures
        k < next.blocks[b.id as int].statements.len(),
        next.blocks[b.id as int].statements[k] == pre.blocks[b.id as int].statements[k],
{
}

/// A value is never changed once it is made.
pub proof fn law_values_are_immutable(pre: CxView, next: CxView, v: RValue)
    requires
        pre.grows_to(next),
        pre.valid_rvalue(v),
    ensures
        next.valid_rvalue(v),
        next.values[v.id as int] == pre.values[v.id as int],
{
}

/// After the lowering of a switch whose match values are pairwise
/// distinct, the block ends in a switch that sends each match value to the
/// block of its case, and every other value to the default block.
pub proof fn law_switch(
    cx: CxView,
    at: Block,
    value: RValue,
    default_block: Block,
    cases: Seq<(u128, Block)>,
    x: u128,
)
    requires
        cx.wf(),
        cx.open_block(at),
        cx.values.len() + cases.len() <= usize::MAX,
        forall|i: int, j: int| 0 <= i < j < cases.len() ==> cases[i].0 != cases[j].0,
    ensures
        ({
            let post = Builder::spec_switch(cx, at, value, default_block, cases);
            let block = post.blocks[at.id as int];
            &&& block.terminator == Some(Terminator::Switch { value, default: default_block })
            &&& block.cases.len() == cases.len()
            &&& forall|i: int|
                0 <= i < cases.len() && (#[trigger] cases[i]).0 == x ==> switch_target(
                    post,
                    block.cases,
                    default_block,
                    x as int,
                    0,
                ) == cases[i].1
            &&& (forall|i: int| 0 <= i < cases.len() ==> (#[trigger] cases[i]).0 != x)
                ==> switch_target(post, block.cases, default_block, x as int, 0) == default_block
        }),
{
    let post = Builder::spec_switch(cx, at, value, default_block, cases);
    let block = post.blocks[at.id as int];
    let n = cases.len() as int;
    assert(block.cases =~= Builder::case_list(cx, cases, n));
    assert forall|k: int| 0 <= k < n implies (case_matches(post, #[trigger] block.cases[k], x as int)
        <==> cases[k].0 == x) by {
        let c = block.cases[k];
        assert(c.min.id == cx.values.len() + k);
        assert(post.values[cx.values.len() + k] == crate::ir::ValueView {
            node: Node::UintBig { value: cases[k].0 },
            ty: cx.type_of(value),
            args: seq![],
        });
    }
    lemma_switch_target(post, block.cases, default_block, cases, x, 0);
}

/// From position `from` on, the target of `x` is the destination of the
/// case whose match value is `x`, or the default.
proof fn lemma_switch_target(
    post: CxView,
    gcc_cases: Seq<Case>,
    default_block: Block,
    cases: Seq<(u128, Block)>,
    x: u128,
    from: int,
)
    requires
        0 <= from <= cases.len(),
        gcc_cases.len() == cases.len(),
        forall|k: int| 0 <= k < cases.len() ==> (#[trigger] gcc_cases[k]).dest == cases[k].1,
        forall|k: int|
            0 <= k < cases.len() ==> (case_matches(post, #[trigger] gcc_cases[k], x as int)
                <==> cases[k].0 == x),
        forall|i: int, j: int| 0 <= i < j < cases.len() ==> cases[i].0 != cases[j].0,
    ensures
        forall|i: int|
            from <= i < cases.len() && (#[trigger] cases[i]).0 == x ==> switch_target(
                post,
                gcc_cases,
                default_block,
                x as int,
                from,
            ) == cases[i].1,
        (forall|i: int| from <= i < cases.len() ==> (#[trigger] cases[i]).0 != x) ==> switch_target(
            post,
            gcc_cases,
            default_block,
            x as int,
            from,
        ) == default_block,
    decreases cases.len() - from,
{
    if from < cases.len() {
        lemma_switch_target(post, gcc_cases, default_block, cases, x, from + 1);
        assert(gcc_cases[from].dest == cases[from].1);
        if cases[from].0 == x {
            assert(case_matches(post, gcc_cases[from], x as int));
        } else {
            assert(!case_matches(post, gcc_cases[from], x as int));
        }
    }
}

/// No two numbered slots of a well-formed context have the same name, and
/// each carries a number that the counter has handed out.
pub proof fn law_fresh_names_are_distinct(cx: CxView, i: int, j: int)
    requires
        cx.wf(),
        0 <= i < cx.values.len(),
        0 <= j < cx.values.len(),
        i != j,
        cx.serial_at(i) is Some,
        cx.serial_at(j) is Some,
    ensures
        cx.serial_at(i) != cx.serial_at(j),
        cx.values[i].node->Local_name != cx.values[j].node->Local_name,
        1 <= cx.serial_at(i)->0 <= cx.fresh,
{
    reveal(CxView::names_wf);
    if i < j {
        assert(cx.serial_at(i) != cx.serial_at(j));
    } else {
        assert(cx.serial_at(j) != cx.serial_at(i));
    }
}

/// The counter never goes back, and a slot made under one of its numbers
/// keeps that name.
pub proof fn law_counter_is_monotonic(pre: CxView, next: CxView, i: int)
    requires
        pre.grows_to(next),
        0 <= i < pre.values.len(),
    ensures
        pre.fresh <= next.fresh,
        next.serial_at(i) == pre.serial_at(i),
{
}

/// How many of the first `n` arguments mismatch.
pub open spec fn mismatch_count(cx: CxView, expected: Seq<Type>, args: Seq<RValue>, n: int) -> int
    decreases n,
{
    if n <= 0 {
        0
    } else {
        mismatch_count(cx, expected, args, n - 1) + if Builder::mismatch(cx, expected, args, n - 1) {
            1int
        } else {
            0int
        }
    }
}

/// After the first `n` arguments are checked, the context holds one new
/// node for each mismatch among them, nothing else has changed, and the
/// node of a mismatched argument is the argument's bits read as the
/// expected type.
proof fn lemma_checked_args(cx: CxView, expected: Seq<Type>, args: Seq<RValue>, n: int)
    requires
        0 <= n <= args.len(),
    ensures
        ({
            let c = Builder::checked_args(cx, expected, args, n);
            &&& c == (CxView { values: c.values, ..cx })
            &&& c.values.len() == cx.values.len() + mismatch_count(cx, expected, args, n)
            &&& cx.values.is_prefix_of(c.values)
            &&& forall|k: int|
                0 <= k < n && Builder::mismatch(cx, expected, args, k) ==> {
                    let at = cx.values.len() + #[trigger] mismatch_count(cx, expected, args, k);
                    &&& at < c.values.len()
                    &&& c.values[at] == (crate::ir::ValueView {
                        node: Node::Bitcast { value: args[k] },
                        ty: expected[k],
                        args: seq![],
                    })
                }
        }),
    decreases n,
{
    if n > 0 {
        lemma_checked_args(cx, expected, args, n - 1);
        let prev = Builder::checked_args(cx, expected, args, n - 1);
        let c = Builder::checked_args(cx, expected, args, n);
        assert forall|k: int| 0 <= k < n && Builder::mismatch(cx, expected, args, k) implies {
            let at = cx.values.len() + #[trigger] mismatch_count(cx, expected, args, k);
            &&& at < c.values.len()
            &&& c.values[at] == (crate::ir::ValueView {
                node: Node::Bitcast { value: args[k] },
                ty: expected[k],
                args: seq![],
            })
        } by {
            lemma_mismatch_count_bounds(cx, expected, args, k);
            if k < n - 1 {
                let at = cx.values.len() + mismatch_count(cx, expected, args, k);
                assert(at < prev.values.len());
                assert(c.values[at] == prev.values[at]);
            }
        }
    }
}

/// For a call with the given arguments against the given parameter types:
/// an argument within the parameters whose type is not the parameter's is
/// passed as a new node, its bits read as the parameter's type; every
/// other argument is passed as it is; and the context holds as many new
/// nodes as there are mismatches, no more.
pub proof fn law_call_arguments(cx: CxView, expected: Seq<Type>, args: Seq<RValue>, i: int)
    requires
        cx.wf(),
        cx.valid_rvalues(args),
        0 <= i < args.len(),
        cx.values.len() + args.len() <= usize::MAX,
    ensures
        ({
            let post = Builder::checked_args(cx, expected, args, args.len() as int);
            let passed = Builder::checked_list(cx, expected, args)[i];
            &&& Builder::checked_list(cx, expected, args).len() == args.len()
            &&& post.values.len() == cx.values.len() + mismatch_count(
                cx,
                expected,
                args,
                args.len() as int,
            )
            &&& Builder::mismatch(cx, expected, args, i) ==> {
                &&& cx.values.len() <= passed.id < post.values.len()
                &&& post.node(passed) == (Node::Bitcast { value: args[i] })
                &&& post.type_of(passed) == expected[i]
            }
            &&& !Builder::mismatch(cx, expected, args, i) ==> passed == args[i]
            &&& i >= expected.len() ==> passed == args[i]
        }),
{
    lemma_checked_args(cx, expected, args, args.len() as int);
    lemma_checked_args(cx, expected, args, i);
    lemma_mismatch_count_bounds(cx, expected, args, i);
    lemma_mismatch_count_bounds(cx, expected, args, args.len() as int);
}

/// There are at most as many mismatches as arguments.
proof fn lemma_mismatch_count_bounds(cx: CxView, expected: Seq<Type>, args: Seq<RValue>, n: int)
    requires
        0 <= n,
    ensures
        0 <= mismatch_count(cx, expected, args, n) <= n,
    decreases n,
{
    if n > 0 {
        lemma_mismatch_count_bounds(cx, expected, args, n - 1);
    }
}

} // verus!
