use std::collections::HashMap;

use codegen_gcc::ir::{
    Block, Function, LValue, Node, RValue, SlotName, Statement, Terminator, Type, TypeKind,
};
use codegen_gcc::kinds::{
    BinaryOp, Builtin, ComparisonOp, IntWidth, OverflowOp, PtrWidth, TyKind, UnaryOp,
};
use codegen_gcc::layout::{Abi, Layout, OperandRef, OperandValue, PlaceRef, Primitive, Scalar};
use codegen_gcc::{Builder, CodegenCx};

// A small machine that runs what was lowered: every slot lives in memory
// at an address of its own, and every store through a pointer is recorded.

const SLOT_BASE: i128 = 1 << 40;

struct Machine {
    memory: HashMap<i128, i128>,
    stores: Vec<(i128, i128)>,
    evaluated: Vec<usize>,
    visited: Vec<Block>,
}

fn machine() -> Machine {
    Machine { memory: HashMap::new(), stores: vec![], evaluated: vec![], visited: vec![] }
}

fn slot_address(id: usize) -> i128 {
    SLOT_BASE + 64 * id as i128
}

fn size_of(cx: &CodegenCx, ty: Type) -> i128 {
    match cx.kind(ty) {
        TypeKind::Void | TypeKind::Bool => 1,
        TypeKind::Int { bits, .. } | TypeKind::Float { bits } => bits as i128 / 8,
        TypeKind::Pointer { .. } | TypeKind::FunctionPtr { .. } => 8,
        TypeKind::Volatile { inner } | TypeKind::Aligned { inner, .. } => size_of(cx, inner),
        TypeKind::Array { elem, len } => size_of(cx, elem) * len as i128,
        TypeKind::Vector { elem, units } => size_of(cx, elem) * units as i128,
        TypeKind::Struct => cx.types[ty.id].members.iter().map(|m| size_of(cx, *m)).sum(),
    }
}

fn wrap(cx: &CodegenCx, ty: Type, v: i128) -> i128 {
    match cx.kind(ty) {
        TypeKind::Bool => (v != 0) as i128,
        TypeKind::Int { bits, signed } if bits < 128 => {
            let modulus = 1i128 << bits;
            let low = v.rem_euclid(modulus);
            if signed && low >= modulus / 2 {
                low - modulus
            } else {
                low
            }
        }
        _ => v,
    }
}

fn field_offset(cx: &CodegenCx, ty: Type, field: usize) -> i128 {
    cx.types[ty.id].members[..field].iter().map(|m| size_of(cx, *m)).sum()
}

fn address(cx: &CodegenCx, m: &mut Machine, place: usize) -> i128 {
    match cx.values[place].node {
        Node::Local { .. } => slot_address(place),
        Node::Deref { ptr } => eval(cx, m, ptr),
        Node::ArrayAccess { base, index } => {
            let start = match cx.kind(cx.val_ty(base)) {
                TypeKind::Array { .. } | TypeKind::Vector { .. } => address(cx, m, base.id),
                _ => eval(cx, m, base),
            };
            start + eval(cx, m, index) * size_of(cx, cx.values[place].ty)
        }
        Node::DerefField { ptr, field } => {
            let ty = cx.pointee(cx.val_ty(ptr)).unwrap();
            eval(cx, m, ptr) + field_offset(cx, ty, field)
        }
        Node::AccessField { base, field } => {
            address(cx, m, base.id) + field_offset(cx, cx.val_ty(base), field)
        }
        _ => panic!("no place"),
    }
}

fn overflow(m: &mut Machine, bits: u32, signed: bool, exact: i128, out: i128) -> i128 {
    let modulus = 1i128 << bits;
    let low = exact.rem_euclid(modulus);
    let wrapped = if signed && low >= modulus / 2 { low - modulus } else { low };
    m.memory.insert(out, wrapped);
    m.stores.push((out, wrapped));
    (wrapped != exact) as i128
}

fn call(cx: &CodegenCx, m: &mut Machine, which: Builtin, args: &[RValue]) -> i128 {
    let values: Vec<i128> = args.iter().map(|a| eval(cx, m, *a)).collect();
    let (a, b) = (values[0], values[1]);
    match which {
        Builtin::SaddOverflow => overflow(m, 32, true, a + b, values[2]),
        Builtin::UaddOverflow => overflow(m, 32, false, a + b, values[2]),
        Builtin::SsubOverflow => overflow(m, 32, true, a - b, values[2]),
        Builtin::SmulOverflow => overflow(m, 32, true, a * b, values[2]),
        Builtin::SaddllOverflow => overflow(m, 64, true, a + b, values[2]),
        _ => panic!("a builtin that this machine does not have"),
    }
}

fn eval(cx: &CodegenCx, m: &mut Machine, v: RValue) -> i128 {
    m.evaluated.push(v.id);
    let data = &cx.values[v.id];
    match data.node {
        Node::Int { value } => value as i128,
        Node::UintBig { value } => value as i128,
        Node::Local { .. }
        | Node::Deref { .. }
        | Node::ArrayAccess { .. }
        | Node::DerefField { .. }
        | Node::AccessField { .. } => {
            let a = address(cx, m, v.id);
            *m.memory.get(&a).expect("read of what was never written")
        }
        Node::AddressOf { place } => address(cx, m, place.id),
        Node::Cast { value } | Node::Bitcast { value } => {
            let inner = eval(cx, m, value);
            wrap(cx, data.ty, inner)
        }
        Node::Unary { op, operand } => {
            let x = eval(cx, m, operand);
            let r = match op {
                UnaryOp::Minus => -x,
                UnaryOp::BitwiseNegate => !x,
                UnaryOp::LogicalNegate => (x == 0) as i128,
                UnaryOp::Abs => x.abs(),
            };
            wrap(cx, data.ty, r)
        }
        Node::Binary { op, lhs, rhs } => {
            let (x, y) = (eval(cx, m, lhs), eval(cx, m, rhs));
            let r = match op {
                BinaryOp::Plus => x + y,
                BinaryOp::Minus => x - y,
                BinaryOp::Mult => x * y,
                BinaryOp::Divide => x / y,
                BinaryOp::Modulo => x % y,
                BinaryOp::BitwiseAnd => x & y,
                BinaryOp::BitwiseXor => x ^ y,
                BinaryOp::BitwiseOr => x | y,
                BinaryOp::LogicalAnd => (x != 0 && y != 0) as i128,
                BinaryOp::LogicalOr => (x != 0 || y != 0) as i128,
                BinaryOp::LShift => x << y,
                BinaryOp::RShift => x >> y,
            };
            wrap(cx, data.ty, r)
        }
        Node::Comparison { op, lhs, rhs } => {
            let (x, y) = (eval(cx, m, lhs), eval(cx, m, rhs));
            (match op {
                ComparisonOp::Equals => x == y,
                ComparisonOp::NotEquals => x != y,
                ComparisonOp::LessThan => x < y,
                ComparisonOp::LessThanEquals => x <= y,
                ComparisonOp::GreaterThan => x > y,
                ComparisonOp::GreaterThanEquals => x >= y,
            }) as i128
        }
        Node::Call { func: Function::Builtin { which } } => call(cx, m, which, &data.args),
        _ => panic!("a value that this machine cannot compute"),
    }
}

fn assign(cx: &CodegenCx, m: &mut Machine, place: LValue, value: i128) {
    let a = address(cx, m, place.id);
    m.memory.insert(a, value);
    if !matches!(cx.values[place.id].node, Node::Local { .. }) {
        m.stores.push((a, value));
    }
}

// Runs from a block until a return or an open block; gives the last block.
fn run(cx: &CodegenCx, m: &mut Machine, start: Block) -> Block {
    let mut block = start;
    for _ in 0..10_000 {
        m.visited.push(block);
        let data = &cx.blocks[block.id];
        for s in &data.statements {
            match *s {
                Statement::Eval { value } => {
                    eval(cx, m, value);
                }
                Statement::Assign { place, value } => {
                    let v = eval(cx, m, value);
                    assign(cx, m, place, v);
                }
                Statement::AssignOp { .. } => panic!("not in this machine"),
            }
        }
        block = match data.terminator {
            None | Some(Terminator::VoidReturn) | Some(Terminator::Return { .. }) => return block,
            Some(Terminator::Jump { target }) => target,
            Some(Terminator::Conditional { cond, on_true, on_false }) => {
                if eval(cx, m, cond) != 0 {
                    on_true
                } else {
                    on_false
                }
            }
            Some(Terminator::Switch { value, default }) => {
                let x = eval(cx, m, value);
                let mut target = default;
                for case in &data.cases {
                    if eval(cx, m, case.min) <= x && x <= eval(cx, m, case.max) {
                        target = case.dest;
                        break;
                    }
                }
                target
            }
        };
    }
    panic!("the code does not end");
}

fn setup() -> (CodegenCx, Function, Builder) {
    let mut cx = CodegenCx::new(PtrWidth::W64);
    let void = cx.type_void();
    let func = cx.new_function("f", void, vec![]);
    cx.set_current_func(func);
    let bx = Builder::new_block(&mut cx, func, "entry");
    (cx, func, bx)
}

fn int32(cx: &mut CodegenCx, v: i64) -> RValue {
    let ty = cx.type_int(32);
    cx.new_rvalue_from_long(ty, v)
}

fn select_run(cond: i64) -> (CodegenCx, Machine, RValue, RValue, RValue, Block) {
    let (mut cx, _f, mut bx) = setup();
    let cond = int32(&mut cx, cond);
    let ten = int32(&mut cx, 10);
    let one = int32(&mut cx, 1);
    let a = bx.add(&mut cx, ten, one);
    let b = bx.sub(&mut cx, ten, one);
    let r = bx.select(&mut cx, cond, a, b);
    let mut m = machine();
    let end = run(&cx, &mut m, Block { id: 0 });
    assert_eq!(Some(end), bx.block);
    (cx, m, r, a, b, end)
}

#[test]
fn select_on_true_gives_the_first_value() {
    let (cx, mut m, r, a, b, _end) = select_run(1);
    assert_eq!(eval(&cx, &mut m, r), 11);
    assert_eq!(m.visited, vec![Block { id: 0 }, Block { id: 1 }, Block { id: 3 }]);
    assert!(m.evaluated.contains(&a.id));
    assert!(!m.evaluated.contains(&b.id));
}

#[test]
fn select_on_false_gives_the_second_value() {
    let (cx, mut m, r, a, b, _end) = select_run(0);
    assert_eq!(eval(&cx, &mut m, r), 9);
    assert_eq!(m.visited, vec![Block { id: 0 }, Block { id: 2 }, Block { id: 3 }]);
    assert!(!m.evaluated.contains(&a.id));
    assert!(m.evaluated.contains(&b.id));
}

#[test]
fn select_writes_the_merge_slot_exactly_once() {
    let (cx, m, r, _a, _b, _end) = select_run(1);
    let writes: usize = m
        .visited
        .iter()
        .map(|b| &cx.blocks[b.id].statements)
        .flatten()
        .filter(|s| matches!(s, Statement::Assign { place, .. } if place.id == r.id))
        .count();
    assert_eq!(writes, 1);
    assert!(m.stores.is_empty());
}

fn int_layout(ty: Type) -> Layout {
    Layout {
        size: 4,
        abi: Abi::Scalar {
            scalar: Scalar {
                value: Primitive::Int { bytes: 4, signed: true },
                valid_start: 0,
                valid_end: u32::MAX as u128,
            },
        },
        ty,
    }
}

fn repeat(count: u64, len: u64) -> (Machine, i128, Builder, CodegenCx, Builder) {
    let (mut cx, func, bx) = setup();
    let i32_type = cx.type_int(32);
    let array = cx.new_type(TypeKind::Array { elem: i32_type, len }, vec![]);
    let slot = cx.new_local(func, array, SlotName::StackVar);
    let base = slot_address(slot.id);
    let ptr = cx.get_address(slot);
    let v = int32(&mut cx, 77);
    let elem = OperandRef { val: OperandValue::Immediate { value: v }, layout: int_layout(i32_type) };
    let dest = PlaceRef {
        llval: ptr,
        llextra: None,
        layout: Layout { size: 4 * len, abi: Abi::Aggregate { sized: true }, ty: array },
        align: 4,
    };
    let next = bx.write_operand_repeatedly(&mut cx, elem, count, dest).unwrap();
    let mut m = machine();
    let end = run(&cx, &mut m, Block { id: 0 });
    assert_eq!(Some(end), next.block);
    (m, base, next, cx, bx)
}

#[test]
fn repeating_zero_times_stores_nothing() {
    let (m, _base, next, cx, bx) = repeat(0, 4);
    assert!(m.stores.is_empty());
    assert_eq!(m.visited, vec![Block { id: 0 }, Block { id: 1 }, Block { id: 3 }]);
    assert_eq!(next.block, Some(Block { id: 3 }));
    assert!(!cx.is_terminated(Block { id: 3 }));
    assert!(cx.is_terminated(bx.llbb()));
    assert!(cx.blocks[3].statements.is_empty());
}

#[test]
fn repeating_stores_to_consecutive_elements() {
    let (m, base, _next, _cx, _bx) = repeat(3, 3);
    assert_eq!(m.stores, vec![(base, 77), (base + 4, 77), (base + 8, 77)]);
    let (header, body) = (Block { id: 1 }, Block { id: 2 });
    assert_eq!(
        m.visited,
        vec![Block { id: 0 }, header, body, header, body, header, body, header, Block { id: 3 }]
    );
}

#[test]
fn repeating_once_stores_once() {
    let (m, base, _next, _cx, _bx) = repeat(1, 8);
    assert_eq!(m.stores, vec![(base, 77)]);
}

#[test]
fn repeating_leaves_the_rest_of_the_array_alone() {
    let (m, base, _next, _cx, _bx) = repeat(5, 8);
    assert_eq!(m.stores.len(), 5);
    for i in 0..5 {
        assert_eq!(m.stores[i], (base + 4 * i as i128, 77));
    }
    for i in 5..8 {
        assert!(!m.memory.contains_key(&(base + 4 * i as i128)));
    }
}

fn checked(op: OverflowOp, a: i64, b: i64) -> (i128, i128) {
    let (mut cx, _f, mut bx) = setup();
    let a = int32(&mut cx, a);
    let b = int32(&mut cx, b);
    let (value, flag) = bx.checked_binop(&mut cx, op, TyKind::Int(IntWidth::W32), a, b).unwrap();
    let mut m = machine();
    run(&cx, &mut m, Block { id: 0 });
    (eval(&cx, &mut m, value), eval(&cx, &mut m, flag))
}

#[test]
fn checked_add_at_the_maximum_wraps_and_reports_overflow() {
    let (value, flag) = checked(OverflowOp::Add, i32::MAX as i64, 1);
    assert_eq!(flag, 1);
    assert_eq!(value, i32::MIN as i128);
}

#[test]
fn checked_add_within_range_reports_none() {
    let (value, flag) = checked(OverflowOp::Add, 40, 2);
    assert_eq!(flag, 0);
    assert_eq!(value, 42);
}

#[test]
fn checked_sub_and_mul() {
    assert_eq!(checked(OverflowOp::Sub, i32::MIN as i64, 1), (i32::MAX as i128, 1));
    assert_eq!(checked(OverflowOp::Sub, 5, 7), (-2, 0));
    assert_eq!(checked(OverflowOp::Mul, 1 << 16, 1 << 16), (0, 1));
    assert_eq!(checked(OverflowOp::Mul, -3, 7), (-21, 0));
}

fn switch_run(x: i64) -> Block {
    let (mut cx, _f, mut bx) = setup();
    let default = bx.build_sibling_block(&mut cx, "default").llbb();
    let a = bx.build_sibling_block(&mut cx, "a").llbb();
    let b = bx.build_sibling_block(&mut cx, "b").llbb();
    let value = int32(&mut cx, x);
    bx.switch(&mut cx, value, default, &vec![(2, a), (7, b)]);
    let mut m = machine();
    let end = run(&cx, &mut m, Block { id: 0 });
    assert_eq!(m.visited.len(), 2);
    assert_eq!((default, a, b), (Block { id: 1 }, Block { id: 2 }, Block { id: 3 }));
    end
}

#[test]
fn a_switch_runs_to_the_block_of_the_matching_case() {
    assert_eq!(switch_run(2), Block { id: 2 });
    assert_eq!(switch_run(7), Block { id: 3 });
}

#[test]
fn a_switch_runs_to_the_default_block_otherwise() {
    for x in [0, 1, 3, 6, 8, 1000] {
        assert_eq!(switch_run(x), Block { id: 1 });
    }
}

#[test]
fn a_store_and_a_load_move_a_value() {
    let (mut cx, func, mut bx) = setup();
    let i32_type = cx.type_int(32);
    let slot = cx.new_local(func, i32_type, SlotName::StackVar);
    let ptr = cx.get_address(slot);
    let v = int32(&mut cx, 5);
    bx.store(&mut cx, v, ptr, 4);
    let loaded = bx.load(&mut cx, ptr, 4);
    let doubled = bx.add(&mut cx, loaded, loaded);
    let mut m = machine();
    run(&cx, &mut m, Block { id: 0 });
    assert_eq!(m.stores, vec![(slot_address(slot.id), 5)]);
    assert_eq!(eval(&cx, &mut m, doubled), 10);
}

#[test]
fn a_shift_of_mixed_signedness_keeps_its_value() {
    let (mut cx, _f, mut bx) = setup();
    let u32_type = cx.type_uint(32);
    let a = cx.new_rvalue_from_long(u32_type, 3);
    let b = int32(&mut cx, 4);
    let left = bx.shl(&mut cx, a, b);
    let right = bx.lshr(&mut cx, left, b);
    let mut m = machine();
    assert_eq!(eval(&cx, &mut m, left), 48);
    assert_eq!(eval(&cx, &mut m, right), 3);
}
