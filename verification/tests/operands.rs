use codegen_gcc::ir::{
    Block, Function, LValue, Node, RValue, SlotName, Statement, Terminator, Type, TypeKind,
};
use codegen_gcc::kinds::{BinaryOp, Builtin, ComparisonOp, LowerError, PtrWidth};
use codegen_gcc::layout::{Abi, Layout, OperandRef, OperandValue, PlaceRef, Primitive, Scalar};
use codegen_gcc::{Builder, CodegenCx};

fn setup() -> (CodegenCx, Function, Builder) {
    let mut cx = CodegenCx::new(PtrWidth::W64);
    let void = cx.type_void();
    let func = cx.new_function("f", void, vec![]);
    cx.set_current_func(func);
    let bx = Builder::new_block(&mut cx, func, "entry");
    (cx, func, bx)
}

fn scalar(bytes: u64) -> Scalar {
    Scalar {
        value: Primitive::Int { bytes, signed: false },
        valid_start: 0,
        valid_end: u64::MAX as u128,
    }
}

fn boolean() -> Scalar {
    Scalar { value: Primitive::Int { bytes: 1, signed: false }, valid_start: 0, valid_end: 1 }
}

fn place(llval: RValue, layout: Layout) -> PlaceRef {
    PlaceRef { llval, llextra: None, layout, align: 4 }
}

fn pointer_to(cx: &mut CodegenCx, func: Function, ty: Type) -> RValue {
    let slot = cx.new_local(func, ty, SlotName::StackVar);
    cx.get_address(slot)
}

#[test]
fn layouts() {
    let ty = Type { id: 4 };
    let zst = Layout { size: 0, abi: Abi::Aggregate { sized: true }, ty };
    assert!(zst.is_zst());
    assert!(zst.is_gcc_immediate());
    assert!(!zst.is_unsized());
    let unsized_layout = Layout { size: 0, abi: Abi::Aggregate { sized: false }, ty };
    assert!(unsized_layout.is_unsized());
    assert!(!unsized_layout.is_zst());
    assert!(!unsized_layout.is_gcc_immediate());
    let aggregate = Layout { size: 8, abi: Abi::Aggregate { sized: true }, ty };
    assert!(!aggregate.is_zst());
    assert!(!aggregate.is_gcc_immediate());
    let one = Layout { size: 4, abi: Abi::Scalar { scalar: scalar(4) }, ty };
    assert!(one.is_gcc_immediate());
    assert!(!one.is_bool());
    let two = Layout { size: 8, abi: Abi::ScalarPair { a: scalar(4), b: scalar(4) }, ty };
    assert!(!two.is_gcc_immediate());
    let flag = Layout { size: 1, abi: Abi::Scalar { scalar: boolean() }, ty };
    assert!(flag.is_bool());
    assert!(boolean().is_bool());
    assert!(!scalar(1).is_bool());
    assert!(Layout { size: 16, abi: Abi::Vector, ty }.is_gcc_immediate());
    assert!(Layout { size: 0, abi: Abi::Uninhabited, ty }.is_zst());
    assert!(!Layout { size: 4, abi: Abi::Uninhabited, ty }.is_zst());
}

#[test]
fn loading_a_scalar_gives_the_loaded_value() {
    let (mut cx, func, mut bx) = setup();
    let i32_type = cx.type_int(32);
    let ptr = pointer_to(&mut cx, func, i32_type);
    let layout = Layout { size: 4, abi: Abi::Scalar { scalar: scalar(4) }, ty: i32_type };
    let n = cx.values.len();
    let operand = bx.load_operand(&mut cx, place(ptr, layout)).unwrap();
    assert_eq!(operand.layout, layout);
    assert_eq!(operand.val, OperandValue::Immediate { value: RValue { id: n + 1 } });
    assert_eq!(cx.values[n].node, Node::Deref { ptr });
    assert_eq!(
        cx.values[n + 1].node,
        Node::Local { func: 0, name: SlotName::LoadedValue { serial: 1 } }
    );
    assert_eq!(cx.values.len(), n + 2);
}

#[test]
fn loading_a_boolean_converts_it() {
    let (mut cx, func, mut bx) = setup();
    let u8_type = cx.type_uint(8);
    let ptr = pointer_to(&mut cx, func, u8_type);
    let layout = Layout { size: 1, abi: Abi::Scalar { scalar: boolean() }, ty: u8_type };
    let n = cx.values.len();
    let operand = bx.load_operand(&mut cx, place(ptr, layout)).unwrap();
    assert_eq!(operand.val, OperandValue::Immediate { value: RValue { id: n + 2 } });
    assert_eq!(cx.values[n + 2].node, Node::Cast { value: RValue { id: n + 1 } });
    assert_eq!(cx.values[n + 2].ty, cx.type_bool());
}

#[test]
fn loading_a_pair_loads_both_members() {
    let (mut cx, func, mut bx) = setup();
    let i32_type = cx.type_int(32);
    let u8_type = cx.type_uint(8);
    let pair = cx.new_type(TypeKind::Struct, vec![i32_type, u8_type]);
    let ptr = pointer_to(&mut cx, func, pair);
    let layout = Layout { size: 8, abi: Abi::ScalarPair { a: scalar(4), b: boolean() }, ty: pair };
    let operand = bx.load_operand(&mut cx, place(ptr, layout)).unwrap();
    let (a, b) = match operand.val {
        OperandValue::Pair { a, b } => (a, b),
        _ => panic!("no pair"),
    };
    assert_eq!(cx.val_ty(a), i32_type);
    assert!(matches!(cx.node(a), Node::Local { name: SlotName::LoadedValue { serial: 1 }, .. }));
    assert_eq!(cx.val_ty(b), cx.type_bool());
    match cx.node(b) {
        Node::Cast { value } => {
            assert!(matches!(
                cx.node(value),
                Node::Local { name: SlotName::LoadedValue { serial: 2 }, .. }
            ));
            assert_eq!(cx.val_ty(value), u8_type);
        }
        _ => panic!("no conversion"),
    }
    assert_eq!(cx.blocks[0].statements.len(), 2);
    match cx.blocks[0].statements[1] {
        Statement::Assign { value, .. } => match cx.node(value) {
            Node::Deref { ptr: field } => match cx.node(field) {
                Node::AddressOf { place } => assert_eq!(
                    cx.node(RValue { id: place.id }),
                    Node::DerefField { ptr, field: 1 }
                ),
                _ => panic!("no address"),
            },
            _ => panic!("no load"),
        },
        _ => panic!("no assignment"),
    }
}

#[test]
fn loading_what_has_no_size_gives_an_undefined_slot() {
    let (mut cx, _func, mut bx) = setup();
    let i32_type = cx.type_int(32);
    let v = cx.new_rvalue_from_long(i32_type, 0);
    let layout = Layout { size: 0, abi: Abi::Aggregate { sized: true }, ty: i32_type };
    let n = cx.values.len();
    let operand = bx.load_operand(&mut cx, place(v, layout)).unwrap();
    assert_eq!(operand.val, OperandValue::Immediate { value: RValue { id: n } });
    assert_eq!(cx.values[n].node, Node::Local { func: 0, name: SlotName::Undefined });
    assert!(cx.blocks[0].statements.is_empty());
}

#[test]
fn loading_an_aggregate_or_an_unsized_place_keeps_it_in_memory() {
    let (mut cx, func, mut bx) = setup();
    let i32_type = cx.type_int(32);
    let ptr = pointer_to(&mut cx, func, i32_type);
    let extra = cx.const_usize(3);
    let n = cx.values.len();
    let aggregate = Layout { size: 12, abi: Abi::Aggregate { sized: true }, ty: i32_type };
    let operand = bx.load_operand(&mut cx, place(ptr, aggregate)).unwrap();
    assert_eq!(operand.val, OperandValue::Ref { ptr, extra: None, align: 4 });
    let unsized_layout = Layout { size: 0, abi: Abi::Aggregate { sized: false }, ty: i32_type };
    let slice = PlaceRef { llval: ptr, llextra: Some(extra), layout: unsized_layout, align: 2 };
    let operand = bx.load_operand(&mut cx, slice).unwrap();
    assert_eq!(operand.val, OperandValue::Ref { ptr, extra: Some(extra), align: 2 });
    assert_eq!(cx.values.len(), n);
}

#[test]
fn loading_errors_change_nothing() {
    let (mut cx, func, mut bx) = setup();
    let i32_type = cx.type_int(32);
    let v = cx.new_rvalue_from_long(i32_type, 0);
    let ptr = pointer_to(&mut cx, func, i32_type);
    let one = Layout { size: 4, abi: Abi::Scalar { scalar: scalar(4) }, ty: i32_type };
    let two = Layout { size: 8, abi: Abi::ScalarPair { a: scalar(4), b: scalar(4) }, ty: i32_type };
    let n = cx.values.len();
    assert_eq!(bx.load_operand(&mut cx, place(v, one)), Err(LowerError::UnexpectedType));
    assert_eq!(bx.load_operand(&mut cx, place(ptr, two)), Err(LowerError::UnexpectedType));
    let single = cx.new_type(TypeKind::Struct, vec![i32_type]);
    let to_single = pointer_to(&mut cx, func, single);
    let n2 = cx.values.len();
    assert_eq!(bx.load_operand(&mut cx, place(to_single, two)), Err(LowerError::BadIndex));
    assert_eq!(cx.values.len(), n2);
    assert_eq!(n2, n + 2);
    assert!(cx.blocks[0].statements.is_empty());
}

#[test]
fn storing_one_value() {
    let (mut cx, func, mut bx) = setup();
    let i32_type = cx.type_int(32);
    let ptr = pointer_to(&mut cx, func, i32_type);
    let v = cx.new_rvalue_from_long(i32_type, 5);
    let layout = Layout { size: 4, abi: Abi::Scalar { scalar: scalar(4) }, ty: i32_type };
    let n = cx.values.len();
    bx.store_operand(&mut cx, OperandValue::Immediate { value: v }, place(ptr, layout)).unwrap();
    assert_eq!(cx.values[n].node, Node::Deref { ptr });
    assert_eq!(
        cx.blocks[0].statements,
        vec![Statement::Assign { place: LValue { id: n }, value: v }]
    );
}

#[test]
fn storing_a_pair_stores_to_both_members() {
    let (mut cx, func, mut bx) = setup();
    let i32_type = cx.type_int(32);
    let u8_type = cx.type_uint(8);
    let pair = cx.new_type(TypeKind::Struct, vec![i32_type, u8_type]);
    let ptr = pointer_to(&mut cx, func, pair);
    let a = cx.new_rvalue_from_long(i32_type, 5);
    let b = cx.new_rvalue_from_long(u8_type, 6);
    let layout = Layout { size: 8, abi: Abi::ScalarPair { a: scalar(4), b: scalar(1) }, ty: pair };
    bx.store_operand(&mut cx, OperandValue::Pair { a, b }, place(ptr, layout)).unwrap();
    let fields: Vec<(usize, RValue)> = cx.blocks[0]
        .statements
        .iter()
        .map(|s| match *s {
            Statement::Assign { place, value } => match cx.node(RValue { id: place.id }) {
                Node::Deref { ptr: field } => match cx.node(field) {
                    Node::AddressOf { place } => match cx.node(RValue { id: place.id }) {
                        Node::DerefField { field, .. } => (field, value),
                        _ => panic!("no field"),
                    },
                    _ => panic!("no address"),
                },
                _ => panic!("no store"),
            },
            _ => panic!("no assignment"),
        })
        .collect();
    assert_eq!(fields, vec![(0, a), (1, b)]);
}

#[test]
fn storing_what_stays_in_memory_copies_it() {
    let (mut cx, func, mut bx) = setup();
    let i32_type = cx.type_int(32);
    let dst = pointer_to(&mut cx, func, i32_type);
    let src = pointer_to(&mut cx, func, i32_type);
    let layout = Layout { size: 12, abi: Abi::Aggregate { sized: true }, ty: i32_type };
    let n = cx.values.len();
    bx.store_operand(
        &mut cx,
        OperandValue::Ref { ptr: src, extra: None, align: 4 },
        place(dst, layout),
    )
    .unwrap();
    assert_eq!(cx.values[n].node, Node::UintBig { value: 12 });
    let call = RValue { id: cx.values.len() - 1 };
    assert_eq!(
        cx.node(call),
        Node::Call { func: Function::Builtin { which: Builtin::Memcpy } }
    );
    assert_eq!(cx.values[call.id].args.len(), 3);
    assert_eq!(cx.blocks[0].statements, vec![Statement::Eval { value: call }]);
}

#[test]
fn storing_to_what_has_no_size_emits_nothing() {
    let (mut cx, func, mut bx) = setup();
    let i32_type = cx.type_int(32);
    let dst = pointer_to(&mut cx, func, i32_type);
    let v = cx.new_rvalue_from_long(i32_type, 5);
    let layout = Layout { size: 0, abi: Abi::Aggregate { sized: true }, ty: i32_type };
    let n = cx.values.len();
    bx.store_operand(&mut cx, OperandValue::Immediate { value: v }, place(dst, layout)).unwrap();
    bx.store_operand(&mut cx, OperandValue::Pair { a: v, b: v }, place(dst, layout)).unwrap();
    assert_eq!(cx.values.len(), n);
    assert!(cx.blocks[0].statements.is_empty());
}

#[test]
fn storing_errors_change_nothing() {
    let (mut cx, func, mut bx) = setup();
    let i32_type = cx.type_int(32);
    let dst = pointer_to(&mut cx, func, i32_type);
    let v = cx.new_rvalue_from_long(i32_type, 5);
    let one = Layout { size: 4, abi: Abi::Scalar { scalar: scalar(4) }, ty: i32_type };
    let two = Layout { size: 8, abi: Abi::ScalarPair { a: scalar(4), b: scalar(4) }, ty: i32_type };
    let n = cx.values.len();
    assert_eq!(
        bx.store_operand(
            &mut cx,
            OperandValue::Ref { ptr: v, extra: Some(v), align: 4 },
            place(dst, one)
        ),
        Err(LowerError::Unsupported)
    );
    assert_eq!(
        bx.store_operand(&mut cx, OperandValue::Pair { a: v, b: v }, place(dst, one)),
        Err(LowerError::UnexpectedType)
    );
    assert_eq!(
        bx.store_operand(&mut cx, OperandValue::Pair { a: v, b: v }, place(dst, two)),
        Err(LowerError::UnexpectedType)
    );
    assert_eq!(cx.values.len(), n);
    assert!(cx.blocks[0].statements.is_empty());
}

#[test]
fn the_loop_of_a_repeated_store() {
    let (mut cx, func, bx) = setup();
    let i32_type = cx.type_int(32);
    let array = cx.new_type(TypeKind::Array { elem: i32_type, len: 8 }, vec![]);
    let ptr = pointer_to(&mut cx, func, array);
    let v = cx.new_rvalue_from_long(i32_type, 1);
    let elem = OperandRef {
        val: OperandValue::Immediate { value: v },
        layout: Layout { size: 4, abi: Abi::Scalar { scalar: scalar(4) }, ty: i32_type },
    };
    let dest = place(ptr, Layout { size: 32, abi: Abi::Aggregate { sized: true }, ty: array });
    let n = cx.values.len();
    let next = bx.write_operand_repeatedly(&mut cx, elem, 8, dest).unwrap();

    let (entry, header, body, after) =
        (Block { id: 0 }, Block { id: 1 }, Block { id: 2 }, Block { id: 3 });
    assert_eq!(next.block, Some(after));
    assert_eq!(cx.blocks[1].name, "repeat_loop_header");
    assert_eq!(cx.blocks[2].name, "repeat_loop_body");
    assert_eq!(cx.blocks[3].name, "repeat_loop_next");

    assert_eq!(cx.values[n].node, Node::UintBig { value: 0 });
    assert_eq!(cx.values[n + 1].node, Node::UintBig { value: 8 });
    let (start, end) = (RValue { id: n + 5 }, RValue { id: n + 9 });
    assert_eq!(
        cx.values[n + 4].node,
        Node::ArrayAccess { base: RValue { id: n + 3 }, index: RValue { id: n } }
    );
    assert_eq!(
        cx.values[n + 8].node,
        Node::ArrayAccess { base: RValue { id: n + 7 }, index: RValue { id: n + 1 } }
    );
    let current = LValue { id: n + 10 };
    assert_eq!(cx.values[n + 10].node, Node::Local { func: 0, name: SlotName::LoopVar });
    assert_eq!(cx.values[n + 10].ty, cx.val_ty(start));
    assert_eq!(cx.pointee(cx.val_ty(start)), Some(i32_type));

    assert_eq!(cx.blocks[0].statements, vec![Statement::Assign { place: current, value: start }]);
    assert_eq!(cx.blocks[0].terminator, Some(Terminator::Jump { target: header }));
    let keep_going = RValue { id: n + 11 };
    assert_eq!(
        cx.node(keep_going),
        Node::Comparison { op: ComparisonOp::NotEquals, lhs: current.to_rvalue(), rhs: end }
    );
    assert!(cx.blocks[1].statements.is_empty());
    assert_eq!(
        cx.blocks[1].terminator,
        Some(Terminator::Conditional { cond: keep_going, on_true: body, on_false: after })
    );

    assert_eq!(cx.blocks[2].statements.len(), 2);
    match cx.blocks[2].statements[0] {
        Statement::Assign { place, value } => {
            assert_eq!(value, v);
            assert_eq!(cx.node(place.to_rvalue()), Node::Deref { ptr: current.to_rvalue() });
        }
        _ => panic!("no store"),
    }
    match cx.blocks[2].statements[1] {
        Statement::Assign { place, value } => {
            assert_eq!(place, current);
            let sum = match cx.node(value) {
                Node::Cast { value } => value,
                _ => panic!("no pointer"),
            };
            assert_eq!(cx.val_ty(value), cx.val_ty(start));
            match cx.node(sum) {
                Node::Binary { op: BinaryOp::Plus, lhs, rhs } => {
                    assert_eq!(cx.node(lhs), Node::Cast { value: current.to_rvalue() });
                    assert_eq!(cx.val_ty(lhs), cx.type_usize());
                    assert_eq!(cx.node(rhs), Node::UintBig { value: 4 });
                }
                _ => panic!("no sum"),
            }
        }
        _ => panic!("no step"),
    }
    assert_eq!(cx.blocks[2].terminator, Some(Terminator::Jump { target: header }));
    assert!(cx.blocks[3].statements.is_empty());
    assert_eq!(cx.blocks[3].terminator, None);
    assert_eq!(cx.first_open_block(func), Some(after));
    assert_eq!(bx.block, Some(entry));
}

#[test]
fn a_repeated_store_needs_an_array_behind_the_pointer() {
    let (mut cx, func, bx) = setup();
    let i32_type = cx.type_int(32);
    let ptr = pointer_to(&mut cx, func, i32_type);
    let v = cx.new_rvalue_from_long(i32_type, 1);
    let layout = Layout { size: 4, abi: Abi::Scalar { scalar: scalar(4) }, ty: i32_type };
    let elem = OperandRef { val: OperandValue::Immediate { value: v }, layout };
    let n = cx.values.len();
    assert_eq!(
        bx.write_operand_repeatedly(&mut cx, elem, 2, place(ptr, layout)),
        Err(LowerError::UnexpectedType)
    );
    assert_eq!(
        bx.write_operand_repeatedly(&mut cx, elem, 2, place(v, layout)),
        Err(LowerError::UnexpectedType)
    );
    assert_eq!(cx.values.len(), n);
    assert_eq!(cx.blocks.len(), 1);
}

#[test]
fn a_repeated_store_of_a_pair_needs_elements_with_two_members() {
    let (mut cx, func, bx) = setup();
    let i32_type = cx.type_int(32);
    let array = cx.new_type(TypeKind::Array { elem: i32_type, len: 8 }, vec![]);
    let ptr = pointer_to(&mut cx, func, array);
    let v = cx.new_rvalue_from_long(i32_type, 1);
    let two = Layout { size: 8, abi: Abi::ScalarPair { a: scalar(4), b: scalar(4) }, ty: i32_type };
    let elem = OperandRef { val: OperandValue::Pair { a: v, b: v }, layout: two };
    let dest = place(ptr, Layout { size: 32, abi: Abi::Aggregate { sized: true }, ty: array });
    assert_eq!(
        bx.write_operand_repeatedly(&mut cx, elem, 2, dest),
        Err(LowerError::UnexpectedType)
    );
    assert_eq!(cx.blocks.len(), 1);

    let pair = cx.new_type(TypeKind::Struct, vec![i32_type, i32_type]);
    let pairs = cx.new_type(TypeKind::Array { elem: pair, len: 2 }, vec![]);
    let ptr = pointer_to(&mut cx, func, pairs);
    let dest = place(ptr, Layout { size: 16, abi: Abi::Aggregate { sized: true }, ty: pairs });
    let next = bx.write_operand_repeatedly(&mut cx, elem, 2, dest).unwrap();
    assert_eq!(next.block, Some(Block { id: 3 }));
    assert_eq!(cx.blocks[2].statements.len(), 3);
}
