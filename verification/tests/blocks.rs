use codegen_gcc::ir::{
    Block, Case, Function, Node, RValue, SlotName, Statement, Terminator, Type, TypeKind,
};
use codegen_gcc::kinds::{BinaryOp, Builtin, PtrWidth};
use codegen_gcc::{Builder, CodegenCx};

fn setup(ret: Type) -> (CodegenCx, Function, Builder) {
    let mut cx = CodegenCx::new(PtrWidth::W64);
    let func = cx.new_function("f", ret, vec![]);
    cx.set_current_func(func);
    let bx = Builder::new_block(&mut cx, func, "entry");
    (cx, func, bx)
}

fn int32(cx: &mut CodegenCx, v: i64) -> RValue {
    let ty = cx.type_int(32);
    cx.new_rvalue_from_long(ty, v)
}

#[test]
fn a_new_context_holds_the_basic_types() {
    let cx = CodegenCx::new(PtrWidth::W32);
    assert_eq!(cx.types.len(), 14);
    assert_eq!(cx.kind(cx.type_void()), TypeKind::Void);
    assert_eq!(cx.kind(cx.type_bool()), TypeKind::Bool);
    assert_eq!(cx.kind(cx.type_int(32)), TypeKind::Int { bits: 32, signed: true });
    assert_eq!(cx.kind(cx.type_uint(128)), TypeKind::Int { bits: 128, signed: false });
    assert_eq!(cx.kind(cx.type_isize()), TypeKind::Int { bits: 32, signed: true });
    assert_eq!(cx.kind(cx.type_usize()), TypeKind::Int { bits: 32, signed: false });
    assert!(cx.values.is_empty());
    assert!(cx.blocks.is_empty());
    assert_eq!(cx.return_value_count, 0);
    assert_eq!(cx.current_block, None);
}

#[test]
fn pointer_types_are_interned() {
    let mut cx = CodegenCx::new(PtrWidth::W64);
    let i32_type = cx.type_int(32);
    let first = cx.make_pointer(i32_type);
    let n = cx.types.len();
    let second = cx.make_pointer(i32_type);
    assert_eq!(first, second);
    assert_eq!(cx.types.len(), n);
    let u8_type = cx.type_uint(8);
    let other = cx.make_pointer(u8_type);
    assert_ne!(first, other);
    assert_eq!(cx.pointee(first), Some(i32_type));
    assert_eq!(cx.pointee(i32_type), None);
    let nested = cx.make_pointer(first);
    assert_eq!(cx.pointee(nested), Some(first));
}

#[test]
fn a_volatile_type_is_volatile_once() {
    let mut cx = CodegenCx::new(PtrWidth::W64);
    let i32_type = cx.type_int(32);
    let p = cx.make_pointer(i32_type);
    let v = cx.make_volatile(p);
    assert_ne!(v, p);
    assert_eq!(cx.kind(v), TypeKind::Volatile { inner: p });
    assert_eq!(cx.make_volatile(v), v);
    assert_eq!(cx.make_volatile(p), v);
    assert_eq!(cx.pointee(v), Some(i32_type));
    assert!(cx.type_is_pointer(v));
}

#[test]
fn position_at_end_moves_both_cursors() {
    let (mut cx, func, mut bx) = setup(Type { id: 0 });
    let other = cx.new_block(func, "other");
    assert_eq!(bx.block, Some(Block { id: 0 }));
    assert_eq!(cx.current_block, Some(Block { id: 0 }));
    bx.position_at_end(&mut cx, other);
    assert_eq!(bx.block, Some(other));
    assert_eq!(cx.current_block, Some(other));
    assert_eq!(bx.llbb(), other);
}

#[test]
fn a_sibling_block_belongs_to_the_same_function() {
    let (mut cx, func, bx) = setup(Type { id: 0 });
    let sibling = bx.build_sibling_block(&mut cx, "next");
    assert_eq!(bx.block, Some(Block { id: 0 }));
    assert_eq!(sibling.block, Some(Block { id: 1 }));
    assert_eq!(sibling.current_func(&cx), func);
    assert_eq!(cx.blocks[1].name, "next");
    assert!(cx.blocks[1].statements.is_empty());
    assert_eq!(cx.blocks[1].terminator, None);
    assert_eq!(cx.current_block, Some(Block { id: 1 }));
}

#[test]
fn ret_void_closes_the_block() {
    let (mut cx, func, mut bx) = setup(Type { id: 0 });
    assert_eq!(cx.first_open_block(func), Some(Block { id: 0 }));
    assert!(!cx.is_terminated(Block { id: 0 }));
    bx.ret_void(&mut cx);
    assert_eq!(cx.blocks[0].terminator, Some(Terminator::VoidReturn));
    assert!(cx.is_terminated(Block { id: 0 }));
    assert_eq!(cx.first_open_block(func), None);
}

#[test]
fn ret_closes_the_block_with_the_value() {
    let i32_type = Type { id: 4 };
    let (mut cx, _func, mut bx) = setup(i32_type);
    let v = int32(&mut cx, 7);
    bx.ret(&mut cx, v);
    assert_eq!(cx.blocks[0].terminator, Some(Terminator::Return { value: v }));
}

#[test]
fn br_and_cond_br_close_the_block() {
    let (mut cx, func, mut bx) = setup(Type { id: 0 });
    let mut a = bx.build_sibling_block(&mut cx, "a");
    let b = bx.build_sibling_block(&mut cx, "b");
    let cond = int32(&mut cx, 1);
    bx.cond_br(&mut cx, cond, a.llbb(), b.llbb());
    assert_eq!(
        cx.blocks[0].terminator,
        Some(Terminator::Conditional { cond, on_true: a.llbb(), on_false: b.llbb() })
    );
    a.br(&mut cx, b.llbb());
    assert_eq!(cx.blocks[1].terminator, Some(Terminator::Jump { target: b.llbb() }));
    assert_eq!(cx.first_open_block(func), Some(b.llbb()));
}

#[test]
fn a_closed_block_keeps_its_statements_while_others_grow() {
    let (mut cx, func, mut bx) = setup(Type { id: 0 });
    let a = int32(&mut cx, 1);
    let b = int32(&mut cx, 2);
    bx.and(&mut cx, a, b);
    bx.ret_void(&mut cx);
    let statements = cx.blocks[0].statements.clone();
    let terminator = cx.blocks[0].terminator;
    assert_eq!(statements.len(), 1);

    let mut other = Builder::new_block(&mut cx, func, "other");
    other.or(&mut cx, a, b);
    other.xor(&mut cx, a, b);
    other.ret_void(&mut cx);
    assert_eq!(cx.blocks[0].statements, statements);
    assert_eq!(cx.blocks[0].terminator, terminator);
    assert_eq!(cx.blocks[1].statements.len(), 1);
    for block in &cx.blocks {
        assert!(block.terminator.is_some());
    }
    assert_eq!(cx.first_open_block(func), None);
}

#[test]
fn switch_makes_one_case_for_each_pair() {
    let (mut cx, _func, mut bx) = setup(Type { id: 0 });
    let default = bx.build_sibling_block(&mut cx, "default").llbb();
    let one = bx.build_sibling_block(&mut cx, "one").llbb();
    let five = bx.build_sibling_block(&mut cx, "five").llbb();
    let u8_type = cx.type_uint(8);
    let value = cx.new_rvalue_from_long(u8_type, 5);
    let before = cx.values.len();
    bx.switch(&mut cx, value, default, &vec![(1, one), (5, five)]);

    assert_eq!(cx.values.len(), before + 2);
    assert_eq!(cx.values[before].node, Node::UintBig { value: 1 });
    assert_eq!(cx.values[before].ty, u8_type);
    assert_eq!(cx.values[before + 1].node, Node::UintBig { value: 5 });
    assert_eq!(cx.values[before + 1].ty, u8_type);
    assert_eq!(cx.blocks[0].terminator, Some(Terminator::Switch { value, default }));
    assert_eq!(
        cx.blocks[0].cases,
        vec![
            Case { min: RValue { id: before }, max: RValue { id: before }, dest: one },
            Case { min: RValue { id: before + 1 }, max: RValue { id: before + 1 }, dest: five },
        ]
    );
}

fn switch_target(cx: &CodegenCx, block: Block, x: u128) -> Block {
    let data = &cx.blocks[block.id];
    let default = match data.terminator {
        Some(Terminator::Switch { default, .. }) => default,
        _ => panic!("no switch"),
    };
    let constant = |v: RValue| match cx.values[v.id].node {
        Node::UintBig { value } => value,
        _ => panic!("no constant"),
    };
    let mut hits = vec![];
    for case in &data.cases {
        if constant(case.min) <= x && x <= constant(case.max) {
            hits.push(case.dest);
        }
    }
    assert!(hits.len() <= 1);
    hits.first().copied().unwrap_or(default)
}

#[test]
fn switch_sends_unmatched_values_to_the_default() {
    let (mut cx, _func, mut bx) = setup(Type { id: 0 });
    let default = bx.build_sibling_block(&mut cx, "default").llbb();
    let a = bx.build_sibling_block(&mut cx, "a").llbb();
    let b = bx.build_sibling_block(&mut cx, "b").llbb();
    let c = bx.build_sibling_block(&mut cx, "c").llbb();
    let u64_type = cx.type_uint(64);
    let value = cx.new_rvalue_from_long(u64_type, 0);
    bx.switch(&mut cx, value, default, &vec![(0, a), (3, b), (u128::MAX, c)]);
    assert_eq!(switch_target(&cx, Block { id: 0 }, 0), a);
    assert_eq!(switch_target(&cx, Block { id: 0 }, 3), b);
    assert_eq!(switch_target(&cx, Block { id: 0 }, u128::MAX), c);
    for x in [1u128, 2, 4, 5, 1000, u128::MAX - 1] {
        assert_eq!(switch_target(&cx, Block { id: 0 }, x), default);
    }
}

#[test]
fn switch_without_cases_goes_to_the_default() {
    let (mut cx, _func, mut bx) = setup(Type { id: 0 });
    let default = bx.build_sibling_block(&mut cx, "default").llbb();
    let value = int32(&mut cx, 9);
    let before = cx.values.len();
    bx.switch(&mut cx, value, default, &vec![]);
    assert_eq!(cx.values.len(), before);
    assert!(cx.blocks[0].cases.is_empty());
    assert_eq!(switch_target(&cx, Block { id: 0 }, 9), default);
}

#[test]
fn unreachable_in_a_void_function_returns_nothing() {
    let (mut cx, _func, mut bx) = setup(Type { id: 0 });
    bx.unreachable(&mut cx);
    let call = RValue { id: 0 };
    assert_eq!(
        cx.values[0].node,
        Node::Call { func: Function::Builtin { which: Builtin::Unreachable } }
    );
    assert!(cx.values[0].args.is_empty());
    assert_eq!(cx.blocks[0].statements, vec![Statement::Eval { value: call }]);
    assert_eq!(cx.blocks[0].terminator, Some(Terminator::VoidReturn));
    assert_eq!(cx.values.len(), 1);
}

#[test]
fn unreachable_in_a_function_with_a_result_returns_a_slot() {
    let i32_type = Type { id: 4 };
    let (mut cx, _func, mut bx) = setup(i32_type);
    bx.unreachable(&mut cx);
    assert_eq!(cx.blocks[0].statements, vec![Statement::Eval { value: RValue { id: 0 } }]);
    assert_eq!(
        cx.values[1].node,
        Node::Local { func: 0, name: SlotName::UnreachableReturn }
    );
    assert_eq!(cx.values[1].ty, i32_type);
    assert_eq!(cx.blocks[0].terminator, Some(Terminator::Return { value: RValue { id: 1 } }));
}

#[test]
fn select_builds_three_blocks_and_a_merge_slot() {
    let (mut cx, _func, mut bx) = setup(Type { id: 0 });
    let cond = int32(&mut cx, 1);
    let a = int32(&mut cx, 10);
    let b = int32(&mut cx, 20);
    let r = bx.select(&mut cx, cond, a, b);

    let slot = codegen_gcc::ir::LValue { id: r.id };
    assert_eq!(cx.values[r.id].node, Node::Local { func: 0, name: SlotName::SelectVar });
    assert_eq!(cx.values[r.id].ty, cx.val_ty(a));
    assert_eq!(cx.blocks.len(), 4);
    let (then, els, after) = (Block { id: 1 }, Block { id: 2 }, Block { id: 3 });
    assert_eq!(cx.blocks[1].name, "then");
    assert_eq!(cx.blocks[2].name, "else");
    assert_eq!(cx.blocks[3].name, "after");
    assert_eq!(
        cx.blocks[0].terminator,
        Some(Terminator::Conditional { cond, on_true: then, on_false: els })
    );
    assert_eq!(cx.blocks[1].statements, vec![Statement::Assign { place: slot, value: a }]);
    assert_eq!(cx.blocks[1].terminator, Some(Terminator::Jump { target: after }));
    assert_eq!(cx.blocks[2].statements, vec![Statement::Assign { place: slot, value: b }]);
    assert_eq!(cx.blocks[2].terminator, Some(Terminator::Jump { target: after }));
    assert!(cx.blocks[3].statements.is_empty());
    assert_eq!(cx.blocks[3].terminator, None);
    assert_eq!(bx.block, Some(after));
    assert_eq!(cx.current_block, Some(after));
}

#[test]
fn and_goes_through_a_slot() {
    let (mut cx, _func, mut bx) = setup(Type { id: 0 });
    let a = int32(&mut cx, 6);
    let u8_type = cx.type_uint(8);
    let b = cx.new_rvalue_from_long(u8_type, 3);
    let r = bx.and(&mut cx, a, b);
    assert_eq!(r, RValue { id: 2 });
    assert_eq!(cx.values[2].node, Node::Local { func: 0, name: SlotName::AndResult });
    assert_eq!(cx.values[2].ty, u8_type);
    assert_eq!(cx.values[3].node, Node::Binary { op: BinaryOp::BitwiseAnd, lhs: a, rhs: b });
    assert_eq!(
        cx.blocks[0].statements,
        vec![Statement::Assign {
            place: codegen_gcc::ir::LValue { id: 2 },
            value: RValue { id: 3 }
        }]
    );
}

#[test]
fn or_goes_through_a_slot() {
    let (mut cx, _func, mut bx) = setup(Type { id: 0 });
    let a = int32(&mut cx, 6);
    let b = int32(&mut cx, 3);
    let r = bx.or(&mut cx, a, b);
    assert_eq!(cx.values[r.id].node, Node::Local { func: 0, name: SlotName::OrResult });
    assert_eq!(cx.values[3].node, Node::Binary { op: BinaryOp::BitwiseOr, lhs: a, rhs: b });
    assert_eq!(cx.blocks[0].statements.len(), 1);
}
