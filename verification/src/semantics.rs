//! What lowered code does when it runs, on an abstract machine: slots hold
//! integers, memory holds integers by address, and integers have no upper
//! bound. The machine computes constants, slot reads, sums, comparisons,
//! addresses of elements, and conversions between pointers and
//! pointer-sized integers; it stores through slots and addresses. Calls
//! and reads of memory are beyond it.

use crate::builder::Builder;
use crate::ir::{Block, Case, Node, RValue, Statement, Terminator, Type};
use crate::kinds::{BinaryOp, ComparisonOp};
use crate::laws::switch_target;
use crate::model::CxView;
use vstd::prelude::*;

verus! {

/// The state of the machine.
#[verifier::ext_equal]
pub ghost struct Machine {
    /// What each slot holds, by the handle of the slot.
    pub slots: Map<int, int>,
    /// What stands at each address.
    pub memory: Map<int, int>,
}

impl Machine {
    /// The machine after slot `slot` is set to `x`.
    pub open spec fn with_slot(self, slot: int, x: int) -> Machine {
        Machine { slots: self.slots.insert(slot, x), ..self }
    }

    /// The machine after `x` is stored at address `a`.
    pub open spec fn with_store(self, a: int, x: int) -> Machine {
        Machine { memory: self.memory.insert(a, x), ..self }
    }
}

/// Whether a type holds addresses: a pointer, or one of the two
/// pointer-sized integer types.
pub open spec fn holds_addresses(cx: CxView, t: Type) -> bool {
    cx.is_pointer(t) || t.id == 12 || t.id == 13
}

/// Whether a comparison holds of two integers.
pub open spec fn compare(op: ComparisonOp, a: int, b: int) -> bool {
    match op {
        ComparisonOp::Equals => a == b,
        ComparisonOp::NotEquals => a != b,
        ComparisonOp::LessThan => a < b,
        ComparisonOp::LessThanEquals => a <= b,
        ComparisonOp::GreaterThan => a > b,
        ComparisonOp::GreaterThanEquals => a >= b,
    }
}

/// The integer that value `v` computes on machine `m`, where the machine
/// can compute it. `width` gives the size of a value of each type.
pub open spec fn eval(cx: CxView, width: spec_fn(Type) -> int, m: Machine, v: int) -> Option<int>
    decreases v, 1int,
{
    if v < 0 || v >= cx.values.len() {
        None
    } else {
        match cx.values[v].node {
            Node::Int { value } => Some(value as int),
            Node::UintBig { value } => Some(value as int),
            Node::Local { .. } => if m.slots.contains_key(v) {
                Some(m.slots[v])
            } else {
                None
            },
            Node::Cast { value } => if value.id < v && holds_addresses(cx, cx.values[v].ty)
                && holds_addresses(cx, cx.type_of(value)) {
                eval(cx, width, m, value.id as int)
            } else {
                None
            },
            Node::Bitcast { value } => if value.id < v && holds_addresses(cx, cx.values[v].ty)
                && holds_addresses(cx, cx.type_of(value)) {
                eval(cx, width, m, value.id as int)
            } else {
                None
            },
            Node::Binary { op: BinaryOp::Plus, lhs, rhs } => if lhs.id < v && rhs.id < v {
                match (eval(cx, width, m, lhs.id as int), eval(cx, width, m, rhs.id as int)) {
                    (Some(a), Some(b)) => Some(a + b),
                    _ => None,
                }
            } else {
                None
            },
            Node::Comparison { op, lhs, rhs } => if lhs.id < v && rhs.id < v {
                match (eval(cx, width, m, lhs.id as int), eval(cx, width, m, rhs.id as int)) {
                    (Some(a), Some(b)) => Some(
                        if compare(op, a, b) {
                            1int
                        } else {
                            0int
                        },
                    ),
                    _ => None,
                }
            } else {
                None
            },
            Node::AddressOf { place } => if place.id < v {
                address(cx, width, m, place.id as int)
            } else {
                None
            },
            _ => None,
        }
    }
}

/// The address of location `p` on machine `m`: where a pointer points, or
/// an element of the array at an address, as many widths of an element
/// behind its start as the index says.
pub open spec fn address(cx: CxView, width: spec_fn(Type) -> int, m: Machine, p: int) -> Option<int>
    decreases p, 0int,
{
    if p < 0 || p >= cx.values.len() {
        None
    } else {
        match cx.values[p].node {
            Node::Deref { ptr } => if ptr.id < p {
                eval(cx, width, m, ptr.id as int)
            } else {
                None
            },
            Node::ArrayAccess { base, index } => if base.id < p && index.id < p {
                let start = if cx.kind(cx.type_of(base)) is Array {
                    address(cx, width, m, base.id as int)
                } else {
                    eval(cx, width, m, base.id as int)
                };
                match (start, eval(cx, width, m, index.id as int)) {
                    (Some(s), Some(i)) => Some(s + i * width(cx.values[p].ty)),
                    _ => None,
                }
            } else {
                None
            },
            _ => None,
        }
    }
}

/// The machine after a statement, where the machine can run it: an
/// assignment sets a slot, or stores at the address of its location.
pub open spec fn exec(cx: CxView, width: spec_fn(Type) -> int, m: Machine, s: Statement) -> Option<
    Machine,
> {
    match s {
        Statement::Assign { place, value } => match eval(cx, width, m, value.id as int) {
            None => None,
            Some(x) => if cx.node(place.to_value()) is Local {
                Some(m.with_slot(place.id as int, x))
            } else {
                match address(cx, width, m, place.id as int) {
                    Some(a) => Some(m.with_store(a, x)),
                    None => None,
                }
            },
        },
        _ => None,
    }
}

/// The machine after the statements from position `from` on, in order.
pub open spec fn exec_all(
    cx: CxView,
    width: spec_fn(Type) -> int,
    m: Machine,
    statements: Seq<Statement>,
    from: int,
) -> Option<Machine>
    decreases statements.len() - from,
{
    if from < 0 || from >= statements.len() {
        Some(m)
    } else {
        match exec(cx, width, m, statements[from]) {
            None => None,
            Some(next) => exec_all(cx, width, next, statements, from + 1),
        }
    }
}

/// Where a terminator leads on machine `m`; a return leads nowhere.
pub open spec fn successor(
    cx: CxView,
    width: spec_fn(Type) -> int,
    m: Machine,
    t: Terminator,
    cases: Seq<Case>,
) -> Option<Block> {
    match t {
        Terminator::Jump { target } => Some(target),
        Terminator::Conditional { cond, on_true, on_false } => match eval(
            cx,
            width,
            m,
            cond.id as int,
        ) {
            Some(c) => Some(
                if c != 0 {
                    on_true
                } else {
                    on_false
                },
            ),
            None => None,
        },
        Terminator::Switch { value, default } => match eval(cx, width, m, value.id as int) {
            Some(x) => Some(switch_target(cx, cases, default, x, 0)),
            None => None,
        },
        _ => None,
    }
}

/// One block: the machine after its statements, and the block that its
/// terminator leads to.
pub open spec fn step(cx: CxView, width: spec_fn(Type) -> int, m: Machine, b: Block) -> Option<
    (Machine, Block),
> {
    if !cx.valid_block(b) {
        None
    } else {
        let block = cx.blocks[b.id as int];
        match (exec_all(cx, width, m, block.statements, 0), block.terminator) {
            (Some(after), Some(t)) => match successor(cx, width, after, t, block.cases) {
                Some(next) => Some((after, next)),
                None => None,
            },
            _ => None,
        }
    }
}

/// `n` blocks in a row, from block `b` on.
pub open spec fn run(
    cx: CxView,
    width: spec_fn(Type) -> int, m: Machine, b: Block, n: nat,
) -> Option<
    (Machine, Block),
>
    decreases n,
{
    if n == 0 {
        Some((m, b))
    } else {
        match step(cx, width, m, b) {
            Some((after, next)) => run(cx, width, after, next, (n - 1) as nat),
            None => None,
        }
    }
}

/// What a value computes does not change as the context grows.
pub proof fn lemma_eval_stable(
    cx: CxView,
    next: CxView,
    width: spec_fn(Type) -> int,
    m: Machine,
    v: int,
)
    requires
        cx.wf(),
        cx.values.is_prefix_of(next.values),
        cx.types.is_prefix_of(next.types),
        0 <= v < cx.values.len(),
    ensures
        eval(next, width, m, v) == eval(cx, width, m, v),
        address(next, width, m, v) == address(cx, width, m, v),
    decreases v,
{
    reveal(CxView::values_wf);
    assert(cx.value_ok(cx.values[v], v));
    assert(next.values[v] == cx.values[v]);
    let ty = cx.values[v].ty;
    cx.lemma_grows_keeps_type(next, ty);
    match cx.values[v].node {
        Node::Cast { value } => {
            assert(cx.values[v].node.operands()[0] == value.id);
            cx.lemma_grows_keeps_value(next, value);
            cx.lemma_grows_keeps_type(next, cx.type_of(value));
            lemma_eval_stable(cx, next, width, m, value.id as int);
        },
        Node::Bitcast { value } => {
            assert(cx.values[v].node.operands()[0] == value.id);
            cx.lemma_grows_keeps_value(next, value);
            cx.lemma_grows_keeps_type(next, cx.type_of(value));
            lemma_eval_stable(cx, next, width, m, value.id as int);
        },
        Node::Binary { op, lhs, rhs } => {
            assert(cx.values[v].node.operands()[0] == lhs.id);
            assert(cx.values[v].node.operands()[1] == rhs.id);
            lemma_eval_stable(cx, next, width, m, lhs.id as int);
            lemma_eval_stable(cx, next, width, m, rhs.id as int);
        },
        Node::Comparison { op, lhs, rhs } => {
            assert(cx.values[v].node.operands()[0] == lhs.id);
            assert(cx.values[v].node.operands()[1] == rhs.id);
            lemma_eval_stable(cx, next, width, m, lhs.id as int);
            lemma_eval_stable(cx, next, width, m, rhs.id as int);
        },
        Node::AddressOf { place } => {
            assert(cx.values[v].node.operands()[0] == place.id);
            lemma_eval_stable(cx, next, width, m, place.id as int);
        },
        Node::Deref { ptr } => {
            assert(cx.values[v].node.operands()[0] == ptr.id);
            lemma_eval_stable(cx, next, width, m, ptr.id as int);
        },
        Node::ArrayAccess { base, index } => {
            assert(cx.values[v].node.operands()[0] == base.id);
            assert(cx.values[v].node.operands()[1] == index.id);
            cx.lemma_grows_keeps_value(next, base);
            cx.lemma_grows_keeps_type(next, cx.type_of(base));
            lemma_eval_stable(cx, next, width, m, base.id as int);
            lemma_eval_stable(cx, next, width, m, index.id as int);
        },
        _ => {},
    }
}

/// A select computes one of its two values by its condition. On a machine
/// that can compute the condition and the chosen value: the block that
/// held the select ends in a branch to `then` where the condition is not
/// zero and to `else` where it is; that one block assigns the chosen value
/// to the merge slot, changes nothing else, and leads to `after`; the other
/// block is not run; and the result of the select, read afterwards, is the
/// chosen value.
pub proof fn law_select(
    cx: CxView,
    width: spec_fn(Type) -> int,
    m: Machine,
    at: Block,
    cond: RValue,
    then_val: RValue,
    else_val: RValue,
)
    requires
        cx.wf(),
        cx.open_block(at),
        cx.valid_rvalue(cond),
        cx.valid_rvalue(then_val),
        cx.valid_rvalue(else_val),
        cx.values.len() < usize::MAX,
        cx.blocks.len() + 3 <= usize::MAX,
        eval(cx, width, m, cond.id as int) is Some,
        eval(cx, width, m, cond.id as int) != Some(0int) ==> eval(cx, width, m, then_val.id as int)
            is Some,
        eval(cx, width, m, cond.id as int) == Some(0int) ==> eval(cx, width, m, else_val.id as int)
            is Some,
    ensures
        ({
            let post = Builder::spec_select(cx, at, cond, then_val, else_val);
            let result = cx.values.len() as int;
            let then_block = Block { id: cx.blocks.len() as usize };
            let else_block = Block { id: (cx.blocks.len() + 1) as usize };
            let after_block = Block { id: (cx.blocks.len() + 2) as usize };
            let taken = if eval(cx, width, m, cond.id as int) != Some(0int) {
                then_block
            } else {
                else_block
            };
            let chosen = if eval(cx, width, m, cond.id as int) != Some(0int) {
                eval(cx, width, m, then_val.id as int)->0
            } else {
                eval(cx, width, m, else_val.id as int)->0
            };
            &&& post.blocks[at.id as int].statements == cx.blocks[at.id as int].statements
            &&& post.blocks[at.id as int].terminator is Some
            &&& successor(
                post,
                width,
                m,
                post.blocks[at.id as int].terminator->0,
                post.blocks[at.id as int].cases,
            ) == Some(taken)
            &&& step(post, width, m, taken) == Some((m.with_slot(result, chosen), after_block))
            &&& run(post, width, m, taken, 1) == Some((m.with_slot(result, chosen), after_block))
            &&& post.open_block(after_block)
            &&& post.blocks[after_block.id as int].statements.len() == 0
            &&& eval(post, width, m.with_slot(result, chosen), result) == Some(chosen)
        }),
{
    let post = Builder::spec_select(cx, at, cond, then_val, else_val);
    let result = cx.values.len() as int;
    let then_block = Block { id: cx.blocks.len() as usize };
    let else_block = Block { id: (cx.blocks.len() + 1) as usize };
    let after_block = Block { id: (cx.blocks.len() + 2) as usize };
    lemma_select_grows(cx, at, cond, then_val, else_val);
    lemma_eval_stable(cx, post, width, m, cond.id as int);
    lemma_eval_stable(cx, post, width, m, then_val.id as int);
    lemma_eval_stable(cx, post, width, m, else_val.id as int);
    let slot = crate::ir::LValue { id: cx.values.len() as usize };
    assert(post.values[result].node is Local);
    let then_data = post.blocks[then_block.id as int];
    assert(then_data.statements =~= seq![Statement::Assign { place: slot, value: then_val }]);
    assert(then_data.terminator == Some(Terminator::Jump { target: after_block }));
    let else_data = post.blocks[else_block.id as int];
    assert(else_data.statements =~= seq![Statement::Assign { place: slot, value: else_val }]);
    assert(else_data.terminator == Some(Terminator::Jump { target: after_block }));
    if eval(cx, width, m, cond.id as int) != Some(0int) {
        let x = eval(cx, width, m, then_val.id as int)->0;
        let after = m.with_slot(result, x);
        assert(exec(post, width, m, then_data.statements[0]) == Some(after));
        assert(exec_all(post, width, after, then_data.statements, 1) == Some(after));
        assert(exec_all(post, width, m, then_data.statements, 0) == Some(after));
        assert(step(post, width, m, then_block) == Some((after, after_block)));
        assert(run(post, width, after, after_block, 0) == Some((after, after_block)));
    } else {
        let x = eval(cx, width, m, else_val.id as int)->0;
        let after = m.with_slot(result, x);
        assert(exec(post, width, m, else_data.statements[0]) == Some(after));
        assert(exec_all(post, width, after, else_data.statements, 1) == Some(after));
        assert(exec_all(post, width, m, else_data.statements, 0) == Some(after));
        assert(step(post, width, m, else_block) == Some((after, after_block)));
        assert(run(post, width, after, after_block, 0) == Some((after, after_block)));
    }
}

/// The lowering of a select only adds to the context.
proof fn lemma_select_grows(cx: CxView, at: Block, cond: RValue, then_val: RValue, else_val: RValue)
    requires
        cx.wf(),
        cx.open_block(at),
        cx.values.len() < usize::MAX,
        cx.blocks.len() + 3 <= usize::MAX,
    ensures
        cx.grows_to(Builder::spec_select(cx, at, cond, then_val, else_val)),
{
}

} // verus!
