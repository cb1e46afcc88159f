//! What the loop of a repeated store does when it runs: it stores the
//! operand once to each element, in order, and leaves the loop.

use crate::builder::Builder;
use crate::ir::{Block, LValue, Node, RValue, Statement, Terminator, Type, TypeKind};
use crate::kinds::{BinaryOp, Builtin, ComparisonOp};
use crate::layout::{OperandRef, OperandValue, PlaceRef};
use crate::model::CxView;
use crate::semantics::{address, eval, exec, exec_all, lemma_eval_stable, run, step, Machine};
use vstd::prelude::*;

verus! {

/// Whether two machines hold the same in every slot below `bound`.
pub open spec fn agree_below(m1: Machine, m2: Machine, bound: int) -> bool {
    forall|k: int|
        k < bound ==> (#[trigger] m1.slots.contains_key(k)) == m2.slots.contains_key(k)
            && m1.slots[k] == m2.slots[k]
}

/// What a value computes depends on the slots below `bound` only, where
/// the value itself lies below `bound`.
pub proof fn lemma_eval_frame(
    cx: CxView,
    width: spec_fn(Type) -> int,
    m1: Machine,
    m2: Machine,
    v: int,
    bound: int,
)
    requires
        v < bound,
        agree_below(m1, m2, bound),
    ensures
        eval(cx, width, m1, v) == eval(cx, width, m2, v),
        address(cx, width, m1, v) == address(cx, width, m2, v),
    decreases v,
{
    if 0 <= v < cx.values.len() {
        match cx.values[v].node {
            Node::Cast { value } => {
                if value.id < v {
                    lemma_eval_frame(cx, width, m1, m2, value.id as int, bound);
                }
            },
            Node::Bitcast { value } => {
                if value.id < v {
                    lemma_eval_frame(cx, width, m1, m2, value.id as int, bound);
                }
            },
            Node::Binary { op, lhs, rhs } => {
                if lhs.id < v && rhs.id < v {
                    lemma_eval_frame(cx, width, m1, m2, lhs.id as int, bound);
                    lemma_eval_frame(cx, width, m1, m2, rhs.id as int, bound);
                }
            },
            Node::Comparison { op, lhs, rhs } => {
                if lhs.id < v && rhs.id < v {
                    lemma_eval_frame(cx, width, m1, m2, lhs.id as int, bound);
                    lemma_eval_frame(cx, width, m1, m2, rhs.id as int, bound);
                }
            },
            Node::AddressOf { place } => {
                if place.id < v {
                    lemma_eval_frame(cx, width, m1, m2, place.id as int, bound);
                }
            },
            Node::Deref { ptr } => {
                if ptr.id < v {
                    lemma_eval_frame(cx, width, m1, m2, ptr.id as int, bound);
                }
            },
            Node::ArrayAccess { base, index } => {
                if base.id < v && index.id < v {
                    lemma_eval_frame(cx, width, m1, m2, base.id as int, bound);
                    lemma_eval_frame(cx, width, m1, m2, index.id as int, bound);
                }
            },
            _ => {},
        }
    }
}

/// The parts of a counted store loop: the loop variable, the address one
/// past the last element, the value that is stored, the pointer that it is
/// stored through and the location behind it, the nodes of the step, and
/// the three blocks.
pub ghost struct LoopShape {
    pub current: int,
    pub end: int,
    pub value: int,
    pub through: int,
    pub target: int,
    pub width: int,
    pub as_int: int,
    pub sum: int,
    pub advanced: int,
    pub test: int,
    pub header: Block,
    pub body: Block,
    pub next: Block,
}

/// Whether a context holds a counted store loop of the given shape: the
/// header tests whether the loop variable differs from the end and
/// branches to the body or out of the loop; the body stores the value
/// through the loop variable, advances the variable by the width, and
/// jumps back to the header.
pub open spec fn is_loop(cx: CxView, sh: LoopShape, size: int) -> bool {
    let current = RValue { id: sh.current as usize };
    &&& 0 <= sh.value < sh.current
    &&& 0 <= sh.end < sh.current
    &&& sh.current <= sh.through < sh.target
    &&& sh.current < sh.width < sh.sum < sh.advanced < cx.values.len()
    &&& sh.current < sh.as_int < sh.sum
    &&& sh.current < sh.test < cx.values.len()
    &&& sh.target < cx.values.len()
    &&& cx.values.len() <= usize::MAX
    &&& cx.values[sh.current].node is Local
    &&& cx.is_pointer(cx.values[sh.current].ty)
    &&& cx.values[sh.test].node == (Node::Comparison {
        op: ComparisonOp::NotEquals,
        lhs: current,
        rhs: RValue { id: sh.end as usize },
    })
    &&& (sh.through == sh.current || (cx.values[sh.through].node == (Node::Bitcast {
        value: current,
    }) && cx.is_pointer(cx.values[sh.through].ty)))
    &&& cx.values[sh.target].node == (Node::Deref { ptr: RValue { id: sh.through as usize } })
    &&& cx.values[sh.width].node == (Node::UintBig { value: size as u128 })
    &&& 0 <= size <= u64::MAX
    &&& cx.values[sh.as_int].node == (Node::Cast { value: current })
    &&& cx.values[sh.as_int].ty == (Type { id: 13 })
    &&& cx.values[sh.sum].node == (Node::Binary {
        op: BinaryOp::Plus,
        lhs: RValue { id: sh.as_int as usize },
        rhs: RValue { id: sh.width as usize },
    })
    &&& cx.values[sh.sum].ty == (Type { id: 13 })
    &&& cx.values[sh.advanced].node == (Node::Cast { value: RValue { id: sh.sum as usize } })
    &&& cx.is_pointer(cx.values[sh.advanced].ty)
    &&& cx.valid_block(sh.header)
    &&& cx.valid_block(sh.body)
    &&& cx.valid_block(sh.next)
    &&& cx.blocks[sh.header.id as int].statements.len() == 0
    &&& cx.blocks[sh.header.id as int].terminator == Some(
        Terminator::Conditional {
            cond: RValue { id: sh.test as usize },
            on_true: sh.body,
            on_false: sh.next,
        },
    )
    &&& cx.blocks[sh.body.id as int].statements == seq![
        Statement::Assign {
            place: LValue { id: sh.target as usize },
            value: RValue { id: sh.value as usize },
        },
        Statement::Assign {
            place: LValue { id: sh.current as usize },
            value: RValue { id: sh.advanced as usize },
        },
    ]
    &&& cx.blocks[sh.body.id as int].terminator == Some(Terminator::Jump { target: sh.header })
}

/// The machine after `n` turns of the loop: the value stands at the first
/// `n` elements from `base` on, each `size` behind the one before, stored
/// in that order, and the loop variable points to the element after them.
pub open spec fn filled(m: Machine, current: int, base: int, size: int, x: int, n: nat) -> Machine
    decreases n,
{
    if n == 0 {
        m.with_slot(current, base)
    } else {
        filled(m, current, base, size, x, (n - 1) as nat).with_store(base + (n - 1) * size, x).with_slot(
            current,
            base + n * size,
        )
    }
}

/// After any number of turns, the machine differs from the one before the
/// loop in the loop variable and in memory only, and the loop variable
/// points `n` elements behind `base`.
pub proof fn lemma_filled(m: Machine, current: int, base: int, size: int, x: int, n: nat)
    ensures
        filled(m, current, base, size, x, n).slots == m.slots.insert(current, base + n * size),
    decreases n,
{
    if n > 0 {
        lemma_filled(m, current, base, size, x, (n - 1) as nat);
        assert(filled(m, current, base, size, x, n).slots =~= m.slots.insert(
            current,
            base + n * size,
        ));
    } else {
        assert(base + 0 * size == base);
    }
}

/// One turn of the loop and the rest: from the header, with `i` elements
/// filled, the loop fills the remaining elements up to `count` and leaves
/// to the block that follows it, after two blocks for each remaining
/// element and one more.
pub proof fn lemma_loop(
    cx: CxView,
    width: spec_fn(Type) -> int,
    m: Machine,
    sh: LoopShape,
    base: int,
    size: int,
    x: int,
    i: nat,
    count: nat,
)
    requires
        is_loop(cx, sh, size),
        size > 0,
        i <= count,
        eval(cx, width, m, sh.end) == Some(base + count * size),
        eval(cx, width, m, sh.value) == Some(x),
    ensures
        run(
            cx,
            width,
            filled(m, sh.current, base, size, x, i),
            sh.header,
            (2 * (count - i) + 1) as nat,
        ) == Some((filled(m, sh.current, base, size, x, count), sh.next)),
    decreases count - i,
{
    let now = filled(m, sh.current, base, size, x, i);
    lemma_filled(m, sh.current, base, size, x, i);
    let here = base + i * size;
    assert(now.slots.contains_key(sh.current) && now.slots[sh.current] == here);
    assert(agree_below(now, m, sh.current));
    lemma_eval_frame(cx, width, now, m, sh.end, sh.current);
    assert(eval(cx, width, now, sh.end) == Some(base + count * size));
    assert(eval(cx, width, now, sh.current) == Some(here));
    let header = cx.blocks[sh.header.id as int];
    assert(exec_all(cx, width, now, header.statements, 0) == Some(now));
    if i == count {
        assert(eval(cx, width, now, sh.test) == Some(0int));
        assert(step(cx, width, now, sh.header) == Some((now, sh.next)));
        assert(run(cx, width, now, sh.next, 0) == Some((now, sh.next)));
        assert(run(cx, width, now, sh.header, 1) == Some((now, sh.next)));
    } else {
        assert(i * size != count * size) by (nonlinear_arith)
            requires
                i < count,
                size > 0,
        ;
        assert(eval(cx, width, now, sh.test) == Some(1int));
        assert(step(cx, width, now, sh.header) == Some((now, sh.body)));
        // The body: the store, then the step.
        let body = cx.blocks[sh.body.id as int];
        lemma_eval_frame(cx, width, now, m, sh.value, sh.current);
        assert(eval(cx, width, now, sh.value) == Some(x));
        assert(eval(cx, width, now, sh.through) == Some(here));
        assert(address(cx, width, now, sh.target) == Some(here));
        let stored = now.with_store(here, x);
        assert(exec(cx, width, now, body.statements[0]) == Some(stored));
        assert(eval(cx, width, stored, sh.current) == Some(here));
        assert(eval(cx, width, stored, sh.as_int) == Some(here));
        assert(eval(cx, width, stored, sh.width) == Some(size));
        assert(eval(cx, width, stored, sh.sum) == Some(here + size));
        assert(eval(cx, width, stored, sh.advanced) == Some(here + size));
        let turned = stored.with_slot(sh.current, here + size);
        assert(exec(cx, width, stored, body.statements[1]) == Some(turned));
        assert((i + 1) * size == i * size + size) by (nonlinear_arith);
        assert(turned == filled(m, sh.current, base, size, x, (i + 1) as nat));
        assert(exec_all(cx, width, turned, body.statements, 2) == Some(turned));
        assert(exec_all(cx, width, stored, body.statements, 1) == Some(turned));
        assert(exec_all(cx, width, now, body.statements, 0) == Some(turned));
        assert(step(cx, width, now, sh.body) == Some((turned, sh.header)));
        lemma_loop(cx, width, m, sh, base, size, x, (i + 1) as nat, count);
        let rest = (2 * (count - (i + 1)) + 1) as nat;
        assert(run(cx, width, turned, sh.header, rest) == Some(
            (filled(m, sh.current, base, size, x, count), sh.next),
        ));
        assert(run(cx, width, now, sh.body, rest + 1) == run(cx, width, turned, sh.header, rest));
        assert(run(cx, width, now, sh.header, rest + 2) == run(cx, width, now, sh.body, rest + 1));
    }
}

/// Whether `next` holds everything that `c` holds and `k` more values,
/// and at most one more type.
pub open spec fn adds(c: CxView, next: CxView, k: int) -> bool {
    &&& next.values.len() == c.values.len() + k
    &&& c.values.is_prefix_of(next.values)
    &&& c.types.is_prefix_of(next.types)
    &&& next.types.len() <= c.types.len() + 1
}

/// Whether `llval` is a pointer to an array of type `array` with elements
/// of type `elem`.
pub open spec fn array_at(c: CxView, llval: RValue, array: Type, elem: Type) -> bool {
    &&& c.valid_rvalue(llval)
    &&& c.valid_type(c.type_of(llval))
    &&& c.kind(c.type_of(llval)) == (TypeKind::Pointer { pointee: array })
    &&& c.valid_type(array)
    &&& c.kind(array) is Array
    &&& c.element(array) == Some(elem)
}

proof fn lemma_array_at_stays(c: CxView, next: CxView, llval: RValue, array: Type, elem: Type)
    requires
        array_at(c, llval, array, elem),
        c.values.is_prefix_of(next.values),
        c.types.is_prefix_of(next.types),
    ensures
        array_at(next, llval, array, elem),
        next.pointee(next.type_of(llval)) == Some(array),
{
    assert(next.values[llval.id as int] == c.values[llval.id as int]);
    assert(next.types[c.type_of(llval).id as int] == c.types[c.type_of(llval).id as int]);
    assert(next.types[array.id as int] == c.types[array.id as int]);
}

/// The nodes of the address of an element of the array behind `llval`.
proof fn lemma_project(c: CxView, llval: RValue, index: RValue, array: Type, elem: Type)
    requires
        array_at(c, llval, array, elem),
        c.values.len() + 4 <= usize::MAX,
        c.types.len() < usize::MAX,
    ensures
        ({
            let n = Builder::spec_project(c, llval, index);
            let l = c.values.len() as int;
            &&& adds(c, n, 4)
            &&& n == (CxView { types: n.types, values: n.values, ..c })
            &&& n.values[l].node == (Node::UintBig { value: 0 })
            &&& n.values[l + 1].node == (Node::Deref { ptr: llval })
            &&& n.values[l + 1].ty == array
            &&& n.values[l + 2].node == (Node::ArrayAccess {
                base: RValue { id: (l + 1) as usize },
                index,
            })
            &&& n.values[l + 2].ty == elem
            &&& n.values[l + 3].node == (Node::AddressOf { place: LValue { id: (l + 2) as usize } })
            &&& n.values[l + 3].ty.id < n.types.len()
            &&& n.types[n.values[l + 3].ty.id as int].kind == (TypeKind::Pointer { pointee: elem })
        }),
{
    let l = c.values.len() as int;
    let c1 = c.with_node(Node::UintBig { value: 0 }, Type { id: 13 });
    assert(c1.values[llval.id as int] == c.values[llval.id as int]);
    let c2 = c1.with_deref(llval);
    assert(c2.values[l + 1].ty == array);
    let c3 = c2.with_element(c1.next_value(), index);
    assert(c2.type_of(c1.next_value()) == array);
    assert(c3.values[l + 2].ty == elem);
    assert(c3.type_of(c2.next_place().to_value()) == elem);
    c3.lemma_intern(TypeKind::Pointer { pointee: elem });
    let n = c3.with_address(c2.next_place());
    assert(n == Builder::spec_project(c, llval, index));
}

/// The nodes of the two ends of the loop.
proof fn lemma_bounds(c: CxView, llval: RValue, count: u64, array: Type, elem: Type)
    requires
        array_at(c, llval, array, elem),
        c.values.len() + 10 <= usize::MAX,
        c.types.len() + 2 <= usize::MAX,
    ensures
        ({
            let n = Builder::spec_bounds(c, llval, count);
            let l = c.values.len() as int;
            &&& n.values.len() == l + 10
            &&& c.values.is_prefix_of(n.values)
            &&& c.types.is_prefix_of(n.types)
            &&& n.types.len() <= c.types.len() + 2
            &&& n == (CxView { types: n.types, values: n.values, ..c })
            &&& n.values[l].node == (Node::UintBig { value: 0 })
            &&& n.values[l + 1].node == (Node::UintBig { value: count as u128 })
            &&& n.values[l + 3].node == (Node::Deref { ptr: llval })
            &&& n.values[l + 3].ty == array
            &&& n.values[l + 4].node == (Node::ArrayAccess {
                base: RValue { id: (l + 3) as usize },
                index: RValue { id: l as usize },
            })
            &&& n.values[l + 4].ty == elem
            &&& n.values[l + 5].node == (Node::AddressOf { place: LValue { id: (l + 4) as usize } })
            &&& n.values[l + 5].ty.id < n.types.len()
            &&& n.types[n.values[l + 5].ty.id as int].kind == (TypeKind::Pointer { pointee: elem })
            &&& n.values[l + 7].node == (Node::Deref { ptr: llval })
            &&& n.values[l + 7].ty == array
            &&& n.values[l + 8].node == (Node::ArrayAccess {
                base: RValue { id: (l + 7) as usize },
                index: RValue { id: (l + 1) as usize },
            })
            &&& n.values[l + 8].ty == elem
            &&& n.values[l + 9].node == (Node::AddressOf { place: LValue { id: (l + 8) as usize } })
        }),
{
    reveal(Builder::spec_bounds);
    let l = c.values.len() as int;
    let c1 = c.with_node(Node::UintBig { value: 0 }, Type { id: 13 });
    let c2 = c1.with_node(Node::UintBig { value: count as u128 }, Type { id: 13 });
    lemma_array_at_stays(c, c2, llval, array, elem);
    lemma_project(c2, llval, c.next_value(), array, elem);
    let c3 = Builder::spec_project(c2, llval, c.next_value());
    lemma_array_at_stays(c2, c3, llval, array, elem);
    lemma_project(c3, llval, c1.next_value(), array, elem);
    let n = Builder::spec_project(c3, llval, c1.next_value());
    assert(n == Builder::spec_bounds(c, llval, count));
    assert(n.values[l] == c2.values[l]);
    assert(n.values[l + 1] == c2.values[l + 1]);
    assert(n.values[l + 3] == c3.values[l + 3]);
    assert(n.values[l + 4] == c3.values[l + 4]);
    assert(n.values[l + 5] == c3.values[l + 5]);
    assert(n.types[n.values[l + 5].ty.id as int] == c3.types[c3.values[l + 5].ty.id as int]);
}

/// The three blocks of the loop are new, empty and open.
proof fn lemma_repeat_blocks(c: CxView, func: usize)
    requires
        c.blocks.len() + 3 <= usize::MAX,
    ensures
        ({
            let n = Builder::spec_repeat_blocks(c, func);
            let b = c.blocks.len() as int;
            &&& n.values == c.values
            &&& n.types == c.types
            &&& n.blocks.len() == b + 3
            &&& c.blocks.is_prefix_of(n.blocks)
            &&& n.blocks[b].statements.len() == 0
            &&& n.blocks[b].terminator is None
            &&& n.blocks[b + 1].statements.len() == 0
            &&& n.blocks[b + 1].terminator is None
            &&& n.blocks[b + 2].statements.len() == 0
            &&& n.blocks[b + 2].terminator is None
        }),
{
    reveal(Builder::spec_repeat_blocks);
}

/// The entry of the loop: two new values, the assignment and the jump in
/// the entering block, and the branch in the header.
proof fn lemma_enter(
    c: CxView,
    at: Block,
    header: Block,
    body: Block,
    next: Block,
    start: RValue,
    end: RValue,
)
    requires
        c.valid_block(at),
        c.valid_block(header),
        c.valid_block(body),
        c.valid_block(next),
        at != header,
        at != body,
        at != next,
        header != body,
        header != next,
        c.values.len() + 2 <= usize::MAX,
    ensures
        ({
            let n = Builder::spec_enter(c, at, header, body, next, start, end);
            let l = c.values.len() as int;
            &&& n.values.len() == l + 2
            &&& c.values.is_prefix_of(n.values)
            &&& n.types == c.types
            &&& n.blocks.len() == c.blocks.len()
            &&& n.values[l].node is Local
            &&& n.values[l].ty == c.type_of(start)
            &&& n.values[l + 1].node == (Node::Comparison {
                op: ComparisonOp::NotEquals,
                lhs: RValue { id: l as usize },
                rhs: end,
            })
            &&& n.blocks[at.id as int].statements == c.blocks[at.id as int].statements.push(
                Statement::Assign { place: LValue { id: l as usize }, value: start },
            )
            &&& n.blocks[at.id as int].terminator == Some(Terminator::Jump { target: header })
            &&& n.blocks[header.id as int].statements == c.blocks[header.id as int].statements
            &&& n.blocks[header.id as int].terminator == Some(
                Terminator::Conditional {
                    cond: RValue { id: (l + 1) as usize },
                    on_true: body,
                    on_false: next,
                },
            )
            &&& n.blocks[body.id as int] == c.blocks[body.id as int]
            &&& n.blocks[next.id as int] == c.blocks[next.id as int]
        }),
{
    reveal(Builder::spec_enter);
}

/// The handle of the pointer that a value is stored through: the pointer
/// itself where it is a pointer to the value's type, else the next node,
/// which reads the pointer as such a pointer.
pub open spec fn store_through(c: CxView, val: RValue, ptr: RValue) -> int {
    if c.type_of(ptr) == c.pointer_type(c.type_of(val)) {
        ptr.id as int
    } else {
        c.values.len() as int
    }
}

/// The handle of the location that a value is stored to: the node after
/// the pointer that it is stored through.
pub open spec fn store_target(c: CxView, val: RValue, ptr: RValue) -> int {
    if c.type_of(ptr) == c.pointer_type(c.type_of(val)) {
        c.values.len() as int
    } else {
        c.values.len() as int + 1
    }
}

/// The nodes and the statement of the store of one value through `ptr` in
/// block `body`.
proof fn lemma_store(
    c: CxView,
    body: Block,
    val: RValue,
    ptr: RValue,
    dest: crate::layout::PlaceRef,
)
    requires
        c.valid_block(body),
        c.valid_rvalue(ptr),
        c.valid_rvalue(val),
        c.is_pointer(c.type_of(ptr)),
        c.valid_type(c.type_of(ptr)),
        dest.llval == ptr,
        !dest.layout.spec_is_zst(),
        c.values.len() + 3 <= usize::MAX,
        c.types.len() < usize::MAX,
    ensures
        ({
            let n = Builder::spec_store_operand(
                c,
                body,
                crate::layout::OperandValue::Immediate { value: val },
                dest,
            );
            let through = store_through(c, val, ptr);
            let target = store_target(c, val, ptr);
            &&& c.values.is_prefix_of(n.values)
            &&& c.types.is_prefix_of(n.types)
            &&& n.types.len() <= c.types.len() + 1
            &&& target + 2 == n.values.len()
            &&& n.blocks.len() == c.blocks.len()
            &&& (through == ptr.id || (n.values[through].node == (Node::Bitcast { value: ptr })
                && n.is_pointer(n.values[through].ty)))
            &&& n.values[target].node == (Node::Deref { ptr: RValue { id: through as usize } })
            &&& n.blocks[body.id as int].statements == c.blocks[body.id as int].statements.push(
                Statement::Assign { place: LValue { id: target as usize }, value: val },
            )
            &&& n.blocks[body.id as int].terminator == c.blocks[body.id as int].terminator
            &&& forall|i: int|
                0 <= i < c.blocks.len() && i != body.id ==> #[trigger] n.blocks[i] == c.blocks[i]
        }),
{
    reveal(Builder::spec_store_operand);
    c.lemma_intern(TypeKind::Pointer { pointee: c.type_of(val) });
    let c1 = Builder::spec_check_store(c, val, ptr);
    let through = store_through(c, val, ptr);
    if through == ptr.id {
        assert(c1.values[ptr.id as int] == c.values[ptr.id as int]);
    }
}

/// The nodes and the statement of the step of the loop.
proof fn lemma_advance(
    c: CxView,
    body: Block,
    header: Block,
    current: LValue,
    ptr_type: Type,
    size: u64,
)
    requires
        c.valid_block(body),
        c.values.len() + 4 <= usize::MAX,
    ensures
        ({
            let n = Builder::spec_advance(c, body, header, current, ptr_type, size);
            let k = c.values.len() as int;
            &&& n.values.len() == k + 4
            &&& c.values.is_prefix_of(n.values)
            &&& n.types == c.types
            &&& n.blocks.len() == c.blocks.len()
            &&& n.values[k].node == (Node::UintBig { value: size as u128 })
            &&& n.values[k + 1].node == (Node::Cast { value: current.to_value() })
            &&& n.values[k + 1].ty == (Type { id: 13 })
            &&& n.values[k + 2].node == (Node::Binary {
                op: BinaryOp::Plus,
                lhs: RValue { id: (k + 1) as usize },
                rhs: RValue { id: k as usize },
            })
            &&& n.values[k + 2].ty == (Type { id: 13 })
            &&& n.values[k + 3].node == (Node::Cast { value: RValue { id: (k + 2) as usize } })
            &&& n.values[k + 3].ty == ptr_type
            &&& n.blocks[body.id as int].statements == c.blocks[body.id as int].statements.push(
                Statement::Assign { place: current, value: RValue { id: (k + 3) as usize } },
            )
            &&& n.blocks[body.id as int].terminator == Some(Terminator::Jump { target: header })
            &&& forall|i: int|
                0 <= i < c.blocks.len() && i != body.id ==> #[trigger] n.blocks[i] == c.blocks[i]
        }),
{
    reveal(Builder::spec_advance);
}

/// A repeated store of one value to an array runs as a counted loop. On a
/// machine that can compute the array's address and the value, and for
/// which an element is as wide as the operand's layout says: the block
/// that held the instruction ends by setting the loop variable to the
/// address of the first element and jumping to the header; from there the
/// loop stores the value to the elements 0 to `count - 1`, in that order
/// and nowhere else, each one element's width behind the one before, and
/// arrives at the block that follows the loop after two blocks for each
/// element and one more. For a count of zero it stores nothing and arrives
/// there after the header alone.
pub proof fn law_repeat(
    cx: CxView,
    width: spec_fn(Type) -> int,
    m: Machine,
    at: Block,
    cg_elem: OperandRef,
    count: u64,
    dest: PlaceRef,
    array: Type,
    elem: Type,
    base: int,
    x: int,
)
    requires
        cx.wf(),
        cx.open_block(at),
        array_at(cx, dest.llval, array, elem),
        cg_elem.val is Immediate,
        cx.valid_rvalue(cg_elem.val->Immediate_value),
        !cg_elem.layout.spec_is_zst(),
        width(elem) == cg_elem.layout.size,
        cg_elem.layout.size > 0,
        eval(cx, width, m, dest.llval.id as int) == Some(base),
        eval(cx, width, m, cg_elem.val->Immediate_value.id as int) == Some(x),
        cx.values.len() + 20 <= usize::MAX,
        cx.types.len() + 4 <= usize::MAX,
        cx.blocks.len() + 3 <= usize::MAX,
    ensures
        ({
            let post = Builder::spec_repeat(cx, at, cg_elem, count, dest);
            let current = cx.values.len() as int + 10;
            let size = cg_elem.layout.size as int;
            let header = Block { id: cx.blocks.len() as usize };
            let next = Block { id: (cx.blocks.len() + 2) as usize };
            let enter = Statement::Assign {
                place: LValue { id: current as usize },
                value: RValue { id: (cx.values.len() + 5) as usize },
            };
            &&& Builder::repeat_error(cx, cg_elem, dest) is None
            &&& post.blocks[at.id as int].statements == cx.blocks[at.id as int].statements.push(
                enter,
            )
            &&& post.blocks[at.id as int].terminator == Some(Terminator::Jump { target: header })
            &&& exec(post, width, m, enter) == Some(filled(m, current, base, size, x, 0))
            &&& run(
                post,
                width,
                filled(m, current, base, size, x, 0),
                header,
                (2 * count + 1) as nat,
            ) == Some((filled(m, current, base, size, x, count as nat), next))
            &&& post.open_block(next)
            &&& post.blocks[next.id as int].statements.len() == 0
        }),
{
    let value = cg_elem.val->Immediate_value;
    let llval = dest.llval;
    let l = cx.values.len() as int;
    let b = cx.blocks.len() as int;
    let size = cg_elem.layout.size as int;
    let start = RValue { id: (l + 5) as usize };
    let end = RValue { id: (l + 9) as usize };
    let current = LValue { id: (l + 10) as usize };
    let header = Block { id: b as usize };
    let body = Block { id: (b + 1) as usize };
    let next = Block { id: (b + 2) as usize };
    let func = cx.owner(at)->id;

    let c1 = Builder::spec_bounds(cx, llval, count);
    lemma_bounds(cx, llval, count, array, elem);
    let ptr_type = c1.values[l + 5].ty;
    let c2 = Builder::spec_repeat_blocks(c1, func);
    lemma_repeat_blocks(c1, func);
    let c3 = Builder::spec_enter(c2, at, header, body, next, start, end);
    lemma_enter(c2, at, header, body, next, start, end);
    assert(c3.values[l + 10].ty == ptr_type);
    assert(c3.types[ptr_type.id as int].kind == (TypeKind::Pointer { pointee: elem }));
    let place = Builder::element_place(current, cg_elem, dest);
    let c4 = Builder::spec_store_operand(c3, body, cg_elem.val, place);
    lemma_store(c3, body, value, current.to_value(), place);
    let through = store_through(c3, value, current.to_value());
    let target = store_target(c3, value, current.to_value());
    let k = c4.values.len() as int;
    let post = Builder::spec_advance(c4, body, header, current, c1.type_of(start), cg_elem.layout.size);
    lemma_advance(c4, body, header, current, c1.type_of(start), cg_elem.layout.size);
    assert(post == Builder::spec_repeat(cx, at, cg_elem, count, dest));

    // What the context holds in the end.
    assert(cx.values.is_prefix_of(post.values));
    assert(cx.types.is_prefix_of(post.types));
    assert(post.values[l] == c1.values[l]);
    assert(post.values[l + 1] == c1.values[l + 1]);
    assert(post.values[l + 3] == c1.values[l + 3]);
    assert(post.values[l + 4] == c1.values[l + 4]);
    assert(post.values[l + 5] == c1.values[l + 5]);
    assert(post.values[l + 7] == c1.values[l + 7]);
    assert(post.values[l + 8] == c1.values[l + 8]);
    assert(post.values[l + 9] == c1.values[l + 9]);
    assert(post.values[l + 10] == c3.values[l + 10]);
    assert(post.values[l + 11] == c3.values[l + 11]);
    assert(post.values[target] == c4.values[target]);
    assert(post.values[through] == c4.values[through]);
    assert(post.types[ptr_type.id as int].kind == (TypeKind::Pointer { pointee: elem }));
    assert(post.is_pointer(ptr_type));
    lemma_array_at_stays(cx, post, llval, array, elem);

    // What the two ends and the value compute.
    lemma_eval_stable(cx, post, width, m, llval.id as int);
    lemma_eval_stable(cx, post, width, m, value.id as int);
    assert(eval(post, width, m, l) == Some(0int));
    assert(eval(post, width, m, l + 1) == Some(count as int));
    assert(address(post, width, m, l + 3) == Some(base));
    assert(post.type_of(RValue { id: (l + 3) as usize }) == array);
    assert(address(post, width, m, l + 4) == Some(base + 0 * size));
    assert(eval(post, width, m, l + 5) == Some(base));
    assert(address(post, width, m, l + 7) == Some(base));
    assert(post.type_of(RValue { id: (l + 7) as usize }) == array);
    assert(address(post, width, m, l + 8) == Some(base + count * size));
    assert(eval(post, width, m, l + 9) == Some(base + count * size));

    // The blocks.
    assert(post.blocks[header.id as int] == c3.blocks[header.id as int]);
    assert(post.blocks[next.id as int] == c2.blocks[next.id as int]);
    assert(post.blocks[at.id as int] == c3.blocks[at.id as int]);
    assert(c2.blocks[at.id as int] == cx.blocks[at.id as int]);
    assert(c3.blocks[body.id as int].statements.len() == 0);
    assert(post.blocks[body.id as int].statements =~= seq![
        Statement::Assign { place: LValue { id: target as usize }, value },
        Statement::Assign { place: current, value: RValue { id: (k + 3) as usize } },
    ]);
    let sh = LoopShape {
        current: l + 10,
        end: l + 9,
        value: value.id as int,
        through,
        target,
        width: k,
        as_int: k + 1,
        sum: k + 2,
        advanced: k + 3,
        test: l + 11,
        header,
        body,
        next,
    };
    assert(is_loop(post, sh, size));
    let enter = Statement::Assign { place: current, value: start };
    assert(exec(post, width, m, enter) == Some(m.with_slot(l + 10, base)));
    lemma_loop(post, width, m, sh, base, size, x, 0, count as nat);
}

/// Whether `next` holds everything that `c` holds, with the same blocks
/// but for block `at`.
pub open spec fn frame(c: CxView, next: CxView, at: Block) -> bool {
    &&& c.values.is_prefix_of(next.values)
    &&& c.types.is_prefix_of(next.types)
    &&& c.same_blocks_except(next, at)
}

/// Whether `next` holds everything that `c` holds, with the same blocks.
pub open spec fn frame_all(c: CxView, next: CxView) -> bool {
    &&& c.values.is_prefix_of(next.values)
    &&& c.types.is_prefix_of(next.types)
    &&& next.blocks == c.blocks
}

proof fn lemma_store_frame(c: CxView, at: Block, val: RValue, ptr: RValue)
    requires
        c.valid_block(at),
    ensures
        frame(c, Builder::spec_store(c, at, val, ptr), at),
        Builder::spec_store(c, at, val, ptr).values.len() <= c.values.len() + 3,
        Builder::spec_store(c, at, val, ptr).types.len() <= c.types.len() + 1,
{
}

proof fn lemma_struct_gep_frame(c: CxView, ptr: RValue, idx: u64)
    requires
        Builder::struct_gep_error(c, ptr, idx) is None,
    ensures
        frame_all(c, Builder::spec_struct_gep(c, ptr, idx)->Ok_0),
        Builder::spec_struct_gep(c, ptr, idx)->Ok_0.values.len() <= c.values.len() + 4,
        Builder::spec_struct_gep(c, ptr, idx)->Ok_0.types.len() <= c.types.len() + 1,
{
}

proof fn lemma_store_member_frame(c: CxView, at: Block, ptr: RValue, idx: u64, val: RValue)
    requires
        c.valid_block(at),
        Builder::struct_gep_error(c, ptr, idx) is None,
    ensures
        frame(c, Builder::spec_store_member(c, at, ptr, idx, val), at),
        Builder::spec_store_member(c, at, ptr, idx, val).values.len() <= c.values.len() + 7,
        Builder::spec_store_member(c, at, ptr, idx, val).types.len() <= c.types.len() + 2,
{
    lemma_struct_gep_frame(c, ptr, idx);
    let c1 = Builder::spec_struct_gep(c, ptr, idx)->Ok_0;
    lemma_store_frame(c1, at, val, Builder::last(c1));
}

/// Whether `ptr` is a pointer to a value of type `elem`.
pub open spec fn pointer_at(c: CxView, ptr: RValue, elem: Type) -> bool {
    &&& c.valid_rvalue(ptr)
    &&& c.valid_type(c.type_of(ptr))
    &&& c.kind(c.type_of(ptr)) == (TypeKind::Pointer { pointee: elem })
    &&& c.valid_type(elem)
}

proof fn lemma_store_pair_frame(c: CxView, at: Block, ptr: RValue, a: RValue, b: RValue, elem: Type)
    requires
        c.valid_block(at),
        pointer_at(c, ptr, elem),
        Builder::struct_gep_error(c, ptr, 0) is None,
        Builder::struct_gep_error(c, ptr, 1) is None,
    ensures
        frame(c, Builder::spec_store_pair(c, at, ptr, a, b), at),
        Builder::spec_store_pair(c, at, ptr, a, b).values.len() <= c.values.len() + 14,
        Builder::spec_store_pair(c, at, ptr, a, b).types.len() <= c.types.len() + 4,
{
    lemma_store_member_frame(c, at, ptr, 0, a);
    let c1 = Builder::spec_store_member(c, at, ptr, 0, a);
    assert(c1.values[ptr.id as int] == c.values[ptr.id as int]);
    assert(c1.types[c.type_of(ptr).id as int] == c.types[c.type_of(ptr).id as int]);
    assert(c1.types[elem.id as int] == c.types[elem.id as int]);
    assert(Builder::member_error(c1, elem, 1) == Builder::member_error(c, elem, 1));
    assert(Builder::struct_gep_error(c1, ptr, 1) is None);
    lemma_store_member_frame(c1, at, ptr, 1, b);
}

proof fn lemma_as_pointer_frame(c: CxView, value: RValue, pointee: Type)
    requires
        c.types.len() + 2 <= usize::MAX,
    ensures
        frame_all(c, Builder::as_pointer_to(c, value, pointee)),
        Builder::as_pointer_to(c, value, pointee).values.len() <= c.values.len() + 2,
        Builder::as_pointer_to(c, value, pointee).types.len() <= c.types.len() + 2,
{
    c.lemma_intern(TypeKind::Pointer { pointee });
    let c1 = c.with_pointer(pointee);
    let dest = c.pointer_type(pointee);
    assert(c1.is_pointer(dest));
    c1.lemma_intern(TypeKind::Pointer { pointee: c1.type_of(value) });
}

proof fn lemma_copy_frame(c: CxView, at: Block, which: Builtin, dst: RValue, src: RValue, size: RValue)
    requires
        c.valid_block(at),
        c.types.len() + 4 <= usize::MAX,
    ensures
        frame(c, Builder::spec_copy(c, at, which, dst, src, size), at),
        Builder::spec_copy(c, at, which, dst, src, size).values.len() <= c.values.len() + 6,
        Builder::spec_copy(c, at, which, dst, src, size).types.len() <= c.types.len() + 4,
{
    let c1 = c.with_node(Node::Cast { value: size }, Type { id: 13 });
    lemma_as_pointer_frame(c1, dst, Type { id: 2 });
    let c2 = Builder::as_pointer_to(c1, dst, Type { id: 2 });
    lemma_as_pointer_frame(c2, src, Type { id: 0 });
}

/// The store of an operand changes no block but the one that it stores
/// in, and takes nothing away.
proof fn lemma_store_operand_frame(
    c: CxView,
    at: Block,
    val: OperandValue,
    dest: PlaceRef,
    elem: Type,
)
    requires
        c.valid_block(at),
        pointer_at(c, dest.llval, elem),
        Builder::store_operand_error(c, val, dest) is None,
        c.types.len() + 4 <= usize::MAX,
    ensures
        frame(c, Builder::spec_store_operand(c, at, val, dest), at),
        Builder::spec_store_operand(c, at, val, dest).values.len() <= c.values.len() + 14,
        Builder::spec_store_operand(c, at, val, dest).types.len() <= c.types.len() + 4,
{
    reveal(Builder::spec_store_operand);
    if !dest.layout.spec_is_zst() {
        match val {
            OperandValue::Ref { ptr, .. } => {
                if dest.layout.size != 0 {
                    let c1 = c.with_node(
                        Node::UintBig { value: dest.layout.size as u128 },
                        Type { id: 13 },
                    );
                    lemma_copy_frame(c1, at, Builtin::Memcpy, dest.llval, ptr, c.next_value());
                }
            },
            OperandValue::Immediate { value } => {
                lemma_store_frame(c, at, value, dest.llval);
            },
            OperandValue::Pair { a, b } => {
                lemma_store_pair_frame(c, at, dest.llval, a, b, elem);
            },
        }
    }
}

/// A repeated store with a count of zero stores nothing, whatever the
/// operand is. On a machine that can compute the array's address: the
/// block that held the instruction ends by setting the loop variable to
/// the address of the first element and jumping to the header; the header
/// finds the loop variable at the end already and leads to the block that
/// follows the loop; the body is not run, and the machine is as it was but
/// for the loop variable.
pub proof fn law_repeat_nothing(
    cx: CxView,
    width: spec_fn(Type) -> int,
    m: Machine,
    at: Block,
    cg_elem: OperandRef,
    dest: PlaceRef,
    array: Type,
    elem: Type,
    base: int,
)
    requires
        cx.wf(),
        cx.open_block(at),
        array_at(cx, dest.llval, array, elem),
        Builder::repeat_error(cx, cg_elem, dest) is None,
        eval(cx, width, m, dest.llval.id as int) == Some(base),
        cx.values.len() + 40 <= usize::MAX,
        cx.types.len() + 8 <= usize::MAX,
        cx.blocks.len() + 3 <= usize::MAX,
    ensures
        ({
            let post = Builder::spec_repeat(cx, at, cg_elem, 0, dest);
            let current = cx.values.len() as int + 10;
            let header = Block { id: cx.blocks.len() as usize };
            let next = Block { id: (cx.blocks.len() + 2) as usize };
            let enter = Statement::Assign {
                place: LValue { id: current as usize },
                value: RValue { id: (cx.values.len() + 5) as usize },
            };
            let entered = m.with_slot(current, base);
            &&& post.blocks[at.id as int].statements == cx.blocks[at.id as int].statements.push(
                enter,
            )
            &&& post.blocks[at.id as int].terminator == Some(Terminator::Jump { target: header })
            &&& exec(post, width, m, enter) == Some(entered)
            &&& step(post, width, entered, header) == Some((entered, next))
            &&& run(post, width, entered, header, 1) == Some((entered, next))
            &&& post.open_block(next)
            &&& post.blocks[next.id as int].statements.len() == 0
        }),
{
    let llval = dest.llval;
    let l = cx.values.len() as int;
    let b = cx.blocks.len() as int;
    let start = RValue { id: (l + 5) as usize };
    let end = RValue { id: (l + 9) as usize };
    let current = LValue { id: (l + 10) as usize };
    let header = Block { id: b as usize };
    let body = Block { id: (b + 1) as usize };
    let next = Block { id: (b + 2) as usize };
    let func = cx.owner(at)->id;
    reveal(CxView::types_wf);
    assert(cx.type_ok(cx.types[array.id as int], array.id as int));
    assert(cx.valid_type(elem));

    let c1 = Builder::spec_bounds(cx, llval, 0);
    lemma_bounds(cx, llval, 0, array, elem);
    let ptr_type = c1.values[l + 5].ty;
    let c2 = Builder::spec_repeat_blocks(c1, func);
    lemma_repeat_blocks(c1, func);
    let c3 = Builder::spec_enter(c2, at, header, body, next, start, end);
    lemma_enter(c2, at, header, body, next, start, end);
    let place = Builder::element_place(current, cg_elem, dest);
    assert(c3.types[ptr_type.id as int].kind == (TypeKind::Pointer { pointee: elem }));
    assert(c3.types[elem.id as int] == cx.types[elem.id as int]);
    assert(pointer_at(c3, current.to_value(), elem));
    assert(Builder::member_error(c3, elem, 0) == Builder::member_error(cx, elem, 0));
    assert(Builder::member_error(c3, elem, 1) == Builder::member_error(cx, elem, 1));
    assert(Builder::store_operand_error(c3, cg_elem.val, place) is None);
    let c4 = Builder::spec_store_operand(c3, body, cg_elem.val, place);
    lemma_store_operand_frame(c3, body, cg_elem.val, place, elem);
    let post = Builder::spec_advance(c4, body, header, current, c1.type_of(start), cg_elem.layout.size);
    lemma_advance(c4, body, header, current, c1.type_of(start), cg_elem.layout.size);
    assert(post == Builder::spec_repeat(cx, at, cg_elem, 0, dest));

    assert(cx.values.is_prefix_of(post.values));
    assert(cx.types.is_prefix_of(post.types));
    assert(post.values[l] == c1.values[l]);
    assert(post.values[l + 1] == c1.values[l + 1]);
    assert(post.values[l + 3] == c1.values[l + 3]);
    assert(post.values[l + 4] == c1.values[l + 4]);
    assert(post.values[l + 5] == c1.values[l + 5]);
    assert(post.values[l + 7] == c1.values[l + 7]);
    assert(post.values[l + 8] == c1.values[l + 8]);
    assert(post.values[l + 9] == c1.values[l + 9]);
    assert(post.values[l + 10] == c3.values[l + 10]);
    assert(post.values[l + 11] == c3.values[l + 11]);
    lemma_array_at_stays(cx, post, llval, array, elem);
    lemma_eval_stable(cx, post, width, m, llval.id as int);

    let entered = m.with_slot(l + 10, base);
    assert(agree_below(entered, m, l + 10));
    lemma_eval_frame(post, width, entered, m, l + 9, l + 10);
    assert(eval(post, width, m, l) == Some(0int));
    assert(eval(post, width, m, l + 1) == Some(0int));
    assert(address(post, width, m, l + 3) == Some(base));
    assert(post.type_of(RValue { id: (l + 3) as usize }) == array);
    assert(address(post, width, m, l + 4) == Some(base + 0 * width(elem)));
    assert(eval(post, width, m, l + 5) == Some(base));
    assert(address(post, width, m, l + 7) == Some(base));
    assert(post.type_of(RValue { id: (l + 7) as usize }) == array);
    assert(address(post, width, m, l + 8) == Some(base + 0 * width(elem)));
    assert(eval(post, width, m, l + 9) == Some(base));
    assert(eval(post, width, entered, l + 9) == Some(base));
    assert(eval(post, width, entered, l + 10) == Some(base));
    assert(eval(post, width, entered, l + 11) == Some(0int));

    assert(post.blocks[header.id as int] == c3.blocks[header.id as int]);
    assert(post.blocks[next.id as int] == c2.blocks[next.id as int]);
    assert(post.blocks[at.id as int] == c3.blocks[at.id as int]);
    assert(c2.blocks[at.id as int] == cx.blocks[at.id as int]);
    let head = post.blocks[header.id as int];
    assert(exec_all(post, width, entered, head.statements, 0) == Some(entered));
    assert(step(post, width, entered, header) == Some((entered, next)));
    assert(run(post, width, entered, next, 0) == Some((entered, next)));
}

} // verus!
