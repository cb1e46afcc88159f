use codegen_gcc::ir::{
    Block, Function, LValue, Node, RValue, SlotName, Statement, Type, TypeKind,
};
use codegen_gcc::kinds::{
    AtomicOrdering, AtomicRmwBinOp, Builtin, IntWidth, LowerError, MemFlags, OverflowOp, PtrWidth,
    SynchronizationScope, TyKind,
};
use codegen_gcc::{Builder, CodegenCx};

fn setup() -> (CodegenCx, Function, Builder) {
    let mut cx = CodegenCx::new(PtrWidth::W64);
    let void = cx.type_void();
    let func = cx.new_function("caller", void, vec![]);
    cx.set_current_func(func);
    let bx = Builder::new_block(&mut cx, func, "entry");
    (cx, func, bx)
}

fn callee(cx: &mut CodegenCx, name: &str, ret: Type, params: Vec<Type>) -> RValue {
    let f = cx.new_function(name, ret, params);
    let void = cx.type_void();
    cx.function_ref(f, void)
}

fn slot_name(cx: &CodegenCx, v: RValue) -> String {
    match cx.node(v) {
        Node::Local { name, .. } => name.text(),
        _ => panic!("no slot"),
    }
}

#[test]
fn check_call_passes_matching_arguments_as_they_are() {
    let (mut cx, _f, mut bx) = setup();
    let i32_type = cx.type_int(32);
    let u8_type = cx.type_uint(8);
    let f = cx.new_function("g", i32_type, vec![i32_type, u8_type]);
    let a = cx.new_rvalue_from_long(i32_type, 1);
    let b = cx.new_rvalue_from_long(u8_type, 2);
    let n = cx.values.len();
    assert_eq!(bx.check_call(&mut cx, f, &vec![a, b]), vec![a, b]);
    assert_eq!(cx.values.len(), n);
}

#[test]
fn check_call_reinterprets_each_mismatched_argument_and_no_other() {
    let (mut cx, _f, mut bx) = setup();
    let i32_type = cx.type_int(32);
    let u8_type = cx.type_uint(8);
    let u32_type = cx.type_uint(32);
    let f = cx.new_function("g", i32_type, vec![i32_type, u8_type, u32_type]);
    let a = cx.new_rvalue_from_long(u32_type, 1);
    let b = cx.new_rvalue_from_long(u8_type, 2);
    let c = cx.new_rvalue_from_long(i32_type, 3);
    let n = cx.values.len();
    let passed = bx.check_call(&mut cx, f, &vec![a, b, c]);
    assert_eq!(cx.values.len(), n + 2);
    assert_eq!(passed, vec![RValue { id: n }, b, RValue { id: n + 1 }]);
    assert_eq!(cx.values[n].node, Node::Bitcast { value: a });
    assert_eq!(cx.values[n].ty, i32_type);
    assert_eq!(cx.values[n + 1].node, Node::Bitcast { value: c });
    assert_eq!(cx.values[n + 1].ty, u32_type);
}

#[test]
fn check_call_passes_excess_arguments_unchecked() {
    let (mut cx, _f, mut bx) = setup();
    let i32_type = cx.type_int(32);
    let u8_type = cx.type_uint(8);
    let f = cx.new_function("g", i32_type, vec![i32_type]);
    let a = cx.new_rvalue_from_long(u8_type, 1);
    let b = cx.new_rvalue_from_long(u8_type, 2);
    let c = cx.new_rvalue_from_long(u8_type, 3);
    let n = cx.values.len();
    let passed = bx.check_call(&mut cx, f, &vec![a, b, c]);
    assert_eq!(passed, vec![RValue { id: n }, b, c]);
    assert_eq!(cx.values.len(), n + 1);
}

#[test]
fn check_call_with_fewer_arguments_than_parameters() {
    let (mut cx, _f, mut bx) = setup();
    let i32_type = cx.type_int(32);
    let u8_type = cx.type_uint(8);
    let f = cx.new_function("g", i32_type, vec![i32_type, u8_type, u8_type]);
    let a = cx.new_rvalue_from_long(i32_type, 1);
    let n = cx.values.len();
    assert_eq!(bx.check_call(&mut cx, f, &vec![a]), vec![a]);
    assert_eq!(cx.values.len(), n);
    assert_eq!(bx.check_call(&mut cx, f, &vec![]), vec![]);
}

#[test]
fn check_ptr_call_goes_by_the_signature_of_the_pointer() {
    let (mut cx, _f, mut bx) = setup();
    let i32_type = cx.type_int(32);
    let u8_type = cx.type_uint(8);
    let fn_ptr = cx.new_type(
        TypeKind::FunctionPtr { ret: i32_type, variadic: false },
        vec![u8_type, i32_type],
    );
    let p = cx.new_rvalue_from_long(fn_ptr, 0);
    let a = cx.new_rvalue_from_long(u8_type, 1);
    let b = cx.new_rvalue_from_long(u8_type, 2);
    let n = cx.values.len();
    let passed = bx.check_ptr_call(&mut cx, p, &vec![a, b]);
    assert_eq!(passed, vec![a, RValue { id: n }]);
    assert_eq!(cx.values[n].node, Node::Bitcast { value: b });
    assert_eq!(cx.values[n].ty, i32_type);
}

#[test]
fn a_call_with_a_result_is_bound_to_a_fresh_slot() {
    let (mut cx, _f, mut bx) = setup();
    let i32_type = cx.type_int(32);
    let g = callee(&mut cx, "g", i32_type, vec![i32_type]);
    let a = cx.new_rvalue_from_long(i32_type, 1);
    let n = cx.values.len();
    let r = bx.call(&mut cx, g, &vec![a]).unwrap();
    assert_eq!(r, RValue { id: n });
    assert_eq!(
        cx.node(r),
        Node::Local { func: 0, name: SlotName::ReturnValue { serial: 1 } }
    );
    assert_eq!(slot_name(&cx, r), "returnValue1");
    assert_eq!(cx.val_ty(r), i32_type);
    assert_eq!(cx.values[n + 1].node, Node::Call { func: Function::Defined { id: 1 } });
    assert_eq!(cx.values[n + 1].args, vec![a]);
    assert_eq!(
        cx.blocks[0].statements,
        vec![Statement::Assign { place: LValue { id: n }, value: RValue { id: n + 1 } }]
    );
    assert_eq!(cx.return_value_count, 1);
}

#[test]
fn a_call_without_a_result_is_evaluated_and_gives_a_placeholder() {
    let (mut cx, _f, mut bx) = setup();
    let void = cx.type_void();
    let i32_type = cx.type_int(32);
    let g = callee(&mut cx, "g", void, vec![i32_type]);
    let a = cx.new_rvalue_from_long(i32_type, 1);
    let n = cx.values.len();
    let r = bx.call(&mut cx, g, &vec![a]).unwrap();
    assert_eq!(cx.values[n].node, Node::Call { func: Function::Defined { id: 1 } });
    assert_eq!(cx.values[n].args, vec![a]);
    assert_eq!(cx.blocks[0].statements, vec![Statement::Eval { value: RValue { id: n } }]);
    assert_eq!(r, RValue { id: n + 1 });
    assert_eq!(cx.node(r), Node::Int { value: 0 });
    assert_eq!(cx.val_ty(r), cx.type_isize());
    assert!(!cx.type_is_pointer(cx.val_ty(r)));
    assert_eq!(cx.return_value_count, 0);
}

#[test]
fn a_call_reinterprets_mismatched_arguments_first() {
    let (mut cx, _f, mut bx) = setup();
    let i32_type = cx.type_int(32);
    let u32_type = cx.type_uint(32);
    let g = callee(&mut cx, "g", i32_type, vec![i32_type, i32_type]);
    let a = cx.new_rvalue_from_long(u32_type, 1);
    let b = cx.new_rvalue_from_long(i32_type, 2);
    let n = cx.values.len();
    let r = bx.call(&mut cx, g, &vec![a, b]).unwrap();
    assert_eq!(cx.values[n].node, Node::Bitcast { value: a });
    assert_eq!(r, RValue { id: n + 1 });
    assert_eq!(cx.values[n + 2].args, vec![RValue { id: n }, b]);
    assert_eq!(cx.values.len(), n + 3);
}

#[test]
fn a_call_through_a_function_pointer() {
    let (mut cx, _f, mut bx) = setup();
    let i32_type = cx.type_int(32);
    let fn_ptr = cx.new_type(TypeKind::FunctionPtr { ret: i32_type, variadic: false }, vec![]);
    let p = cx.new_rvalue_from_long(fn_ptr, 0);
    let n = cx.values.len();
    let r = bx.call(&mut cx, p, &vec![]).unwrap();
    assert_eq!(slot_name(&cx, r), "returnValue1");
    assert_eq!(cx.values[n + 1].node, Node::CallThroughPtr { ptr: p });
    assert_eq!(cx.values[n + 1].ty, i32_type);

    let void = cx.type_void();
    let fn_ptr = cx.new_type(TypeKind::FunctionPtr { ret: void, variadic: false }, vec![]);
    let p = cx.new_rvalue_from_long(fn_ptr, 0);
    let r = bx.call(&mut cx, p, &vec![]).unwrap();
    assert_eq!(cx.node(r), Node::Int { value: 0 });
    assert_eq!(
        cx.blocks[0].statements[1],
        Statement::Eval { value: RValue { id: r.id - 1 } }
    );
}

#[test]
fn a_value_that_is_no_function_cannot_be_called() {
    let (mut cx, _f, mut bx) = setup();
    let i32_type = cx.type_int(32);
    let v = cx.new_rvalue_from_long(i32_type, 0);
    let n = cx.values.len();
    assert_eq!(bx.call(&mut cx, v, &vec![]), Err(LowerError::UnexpectedType));
    assert_eq!(cx.values.len(), n);
    assert!(cx.blocks[0].statements.is_empty());
}

#[test]
fn a_call_is_materialized_where_the_cursor_of_the_context_stands() {
    let (mut cx, _f, mut bx) = setup();
    let i32_type = cx.type_int(32);
    let g = callee(&mut cx, "g", i32_type, vec![]);
    let sibling = bx.build_sibling_block(&mut cx, "other");
    bx.call(&mut cx, g, &vec![]).unwrap();
    assert!(cx.blocks[0].statements.is_empty());
    assert_eq!(cx.blocks[sibling.llbb().id].statements.len(), 1);
}

#[test]
fn two_functions_with_three_calls_each_get_six_distinct_names() {
    let mut cx = CodegenCx::new(PtrWidth::W64);
    let i32_type = cx.type_int(32);
    let g = callee(&mut cx, "g", i32_type, vec![]);
    let mut names = vec![];
    for name in ["first", "second"] {
        let void = cx.type_void();
        let func = cx.new_function(name, void, vec![]);
        cx.set_current_func(func);
        let mut bx = Builder::new_block(&mut cx, func, "entry");
        for _ in 0..3 {
            let r = bx.call(&mut cx, g, &vec![]).unwrap();
            names.push(slot_name(&cx, r));
        }
        bx.ret_void(&mut cx);
    }
    assert_eq!(
        names,
        vec![
            "returnValue1",
            "returnValue2",
            "returnValue3",
            "returnValue4",
            "returnValue5",
            "returnValue6"
        ]
    );
    let mut sorted = names.clone();
    sorted.sort();
    sorted.dedup();
    assert_eq!(sorted.len(), 6);
    assert_eq!(cx.return_value_count, 6);
}

#[test]
fn loads_and_calls_share_the_counter() {
    let (mut cx, _f, mut bx) = setup();
    let i32_type = cx.type_int(32);
    let g = callee(&mut cx, "g", i32_type, vec![]);
    let ptr = bx.alloca(&mut cx, i32_type, 4);
    let a = bx.load(&mut cx, ptr, 4);
    let b = bx.call(&mut cx, g, &vec![]).unwrap();
    let c = bx.load(&mut cx, ptr, 4);
    assert_eq!(slot_name(&cx, a), "loadedValue1");
    assert_eq!(slot_name(&cx, b), "returnValue2");
    assert_eq!(slot_name(&cx, c), "loadedValue3");
}

#[test]
fn overflow_call_binds_the_flag_to_a_boolean_slot() {
    let (mut cx, _f, mut bx) = setup();
    let i32_type = cx.type_int(32);
    let a = cx.new_rvalue_from_long(i32_type, 1);
    let b = cx.new_rvalue_from_long(i32_type, 2);
    let func = Function::Builtin { which: Builtin::SaddOverflow };
    let n = cx.values.len();
    let r = bx.overflow_call(&mut cx, func, &vec![a, b]);
    assert_eq!(r, RValue { id: n });
    assert_eq!(slot_name(&cx, r), "returnValue1");
    assert_eq!(cx.val_ty(r), cx.type_bool());
    assert_eq!(cx.values[n + 1].node, Node::Call { func });
    assert_eq!(cx.values[n + 1].args, vec![a, b]);
    assert_eq!(
        cx.blocks[0].statements,
        vec![Statement::Assign { place: LValue { id: n }, value: RValue { id: n + 1 } }]
    );
}

#[test]
fn checked_binop_calls_the_builtin_on_the_operands_and_an_output_slot() {
    let (mut cx, _f, mut bx) = setup();
    let i32_type = cx.type_int(32);
    let a = cx.new_rvalue_from_long(i32_type, 1);
    let b = cx.new_rvalue_from_long(i32_type, 2);
    let n = cx.values.len();
    let (value, overflow) =
        bx.checked_binop(&mut cx, OverflowOp::Add, TyKind::Int(IntWidth::W32), a, b).unwrap();

    assert_eq!(cx.values[n].node, Node::Local { func: 0, name: SlotName::BinopResult });
    assert_eq!(cx.values[n].ty, i32_type);
    let out = RValue { id: n + 1 };
    assert_eq!(cx.node(out), Node::AddressOf { place: LValue { id: n } });
    assert_eq!(overflow, RValue { id: n + 2 });
    assert_eq!(cx.val_ty(overflow), cx.type_bool());
    assert_eq!(
        cx.values[n + 3].node,
        Node::Call { func: Function::Builtin { which: Builtin::SaddOverflow } }
    );
    assert_eq!(cx.values[n + 3].args, vec![a, b, out]);
    assert_eq!(value, RValue { id: n + 4 });
    assert_eq!(cx.node(value), Node::Deref { ptr: out });
    assert_eq!(cx.val_ty(value), i32_type);
    assert_eq!(
        cx.blocks[0].statements,
        vec![Statement::Assign { place: LValue { id: n + 2 }, value: RValue { id: n + 3 } }]
    );
}

#[test]
fn checked_binop_on_a_pointer_sized_type_goes_by_the_target() {
    let mut cx = CodegenCx::new(PtrWidth::W32);
    let void = cx.type_void();
    let func = cx.new_function("f", void, vec![]);
    let mut bx = Builder::new_block(&mut cx, func, "entry");
    let usize_type = cx.type_usize();
    let a = cx.new_rvalue_from_long(usize_type, 1);
    let n = cx.values.len();
    bx.checked_binop(&mut cx, OverflowOp::Mul, TyKind::Uint(IntWidth::Size), a, a).unwrap();
    assert_eq!(
        cx.values[n + 3].node,
        Node::Call { func: Function::Builtin { which: Builtin::UmulOverflow } }
    );
}

#[test]
fn checked_binop_on_a_type_that_is_no_integer() {
    let (mut cx, _f, mut bx) = setup();
    let i32_type = cx.type_int(32);
    let a = cx.new_rvalue_from_long(i32_type, 1);
    let n = cx.values.len();
    assert_eq!(
        bx.checked_binop(&mut cx, OverflowOp::Sub, TyKind::Other, a, a),
        Err(LowerError::UnexpectedType)
    );
    assert_eq!(cx.values.len(), n);
}

fn order(cx: &CodegenCx, v: RValue) -> i64 {
    assert_eq!(cx.val_ty(v), cx.type_int(32));
    match cx.node(v) {
        Node::Int { value } => value,
        _ => panic!("no constant"),
    }
}

#[test]
fn atomic_load_calls_the_builtin_into_a_slot() {
    let (mut cx, _f, mut bx) = setup();
    let i32_type = cx.type_int(32);
    let ptr = bx.alloca(&mut cx, i32_type, 4);
    let n = cx.values.len();
    let r = bx.atomic_load(&mut cx, ptr, AtomicOrdering::Acquire, 4);
    assert_eq!(order(&cx, RValue { id: n }), 2);
    assert_eq!(r, RValue { id: n + 1 });
    assert_eq!(slot_name(&cx, r), "returnValue1");
    assert_eq!(Some(cx.val_ty(r)), cx.pointee(cx.val_ty(ptr)));
    assert_eq!(
        cx.values[n + 2].node,
        Node::Call { func: Function::Builtin { which: Builtin::AtomicLoadN } }
    );
    assert_eq!(cx.values[n + 2].args, vec![ptr, RValue { id: n }]);
    assert_eq!(
        cx.blocks[0].statements,
        vec![Statement::Assign { place: LValue { id: n + 1 }, value: RValue { id: n + 2 } }]
    );
}

#[test]
fn atomic_store_evaluates_the_builtin() {
    let (mut cx, _f, mut bx) = setup();
    let i32_type = cx.type_int(32);
    let ptr = bx.alloca(&mut cx, i32_type, 4);
    let v = cx.new_rvalue_from_long(i32_type, 3);
    let n = cx.values.len();
    bx.atomic_store(&mut cx, v, ptr, AtomicOrdering::SequentiallyConsistent, 4);
    assert_eq!(order(&cx, RValue { id: n }), 5);
    assert_eq!(
        cx.values[n + 1].node,
        Node::Call { func: Function::Builtin { which: Builtin::AtomicStoreN } }
    );
    assert_eq!(cx.values[n + 1].args, vec![ptr, v, RValue { id: n }]);
    assert_eq!(cx.blocks[0].statements, vec![Statement::Eval { value: RValue { id: n + 1 } }]);
}

#[test]
fn atomic_cmpxchg_calls_the_builtin_into_a_boolean_slot() {
    let (mut cx, _f, mut bx) = setup();
    let i32_type = cx.type_int(32);
    let ptr = bx.alloca(&mut cx, i32_type, 4);
    let expected = cx.new_rvalue_from_long(i32_type, 3);
    let new = cx.new_rvalue_from_long(i32_type, 4);
    let n = cx.values.len();
    let r = bx.atomic_cmpxchg(
        &mut cx,
        ptr,
        expected,
        new,
        AtomicOrdering::AcquireRelease,
        AtomicOrdering::Monotonic,
        true,
    );
    assert_eq!(order(&cx, RValue { id: n }), 4);
    assert_eq!(order(&cx, RValue { id: n + 1 }), 0);
    assert_eq!(cx.values[n + 2].node, Node::Int { value: 1 });
    assert_eq!(cx.values[n + 2].ty, cx.type_bool());
    assert_eq!(r, RValue { id: n + 3 });
    assert_eq!(cx.val_ty(r), cx.type_bool());
    assert_eq!(
        cx.values[n + 4].node,
        Node::Call { func: Function::Builtin { which: Builtin::AtomicCompareExchangeN } }
    );
    assert_eq!(
        cx.values[n + 4].args,
        vec![ptr, expected, new, RValue { id: n + 2 }, RValue { id: n }, RValue { id: n + 1 }]
    );
}

#[test]
fn atomic_rmw_calls_the_builtin_of_the_operation() {
    let (mut cx, _f, mut bx) = setup();
    let i32_type = cx.type_int(32);
    let ptr = bx.alloca(&mut cx, i32_type, 4);
    let v = cx.new_rvalue_from_long(i32_type, 3);
    let n = cx.values.len();
    let r = bx.atomic_rmw(&mut cx, AtomicRmwBinOp::AtomicAdd, ptr, v, AtomicOrdering::Release)
        .unwrap();
    assert_eq!(order(&cx, RValue { id: n }), 3);
    assert_eq!(r, RValue { id: n + 1 });
    assert_eq!(cx.val_ty(r), i32_type);
    assert_eq!(
        cx.values[n + 2].node,
        Node::Call { func: Function::Builtin { which: Builtin::AtomicFetchAdd } }
    );
    assert_eq!(cx.values[n + 2].args, vec![ptr, v, RValue { id: n }]);
    assert_eq!(cx.blocks[0].statements.len(), 1);
}

#[test]
fn atomic_rmw_has_no_minimum_or_maximum() {
    let (mut cx, _f, mut bx) = setup();
    let i32_type = cx.type_int(32);
    let ptr = bx.alloca(&mut cx, i32_type, 4);
    let v = cx.new_rvalue_from_long(i32_type, 3);
    let n = cx.values.len();
    for op in [
        AtomicRmwBinOp::AtomicMax,
        AtomicRmwBinOp::AtomicMin,
        AtomicRmwBinOp::AtomicUMax,
        AtomicRmwBinOp::AtomicUMin,
    ] {
        assert_eq!(
            bx.atomic_rmw(&mut cx, op, ptr, v, AtomicOrdering::Release),
            Err(LowerError::Unsupported)
        );
    }
    assert_eq!(cx.values.len(), n);
    assert!(cx.blocks[0].statements.is_empty());
}

#[test]
fn atomic_fence_evaluates_the_fence_of_the_scope() {
    let (mut cx, _f, mut bx) = setup();
    bx.atomic_fence(&mut cx, AtomicOrdering::Release, SynchronizationScope::SingleThread);
    assert_eq!(order(&cx, RValue { id: 0 }), 3);
    assert_eq!(
        cx.values[1].node,
        Node::Call { func: Function::Builtin { which: Builtin::AtomicSignalFence } }
    );
    assert_eq!(cx.values[1].args, vec![RValue { id: 0 }]);
    assert_eq!(cx.blocks[0].statements, vec![Statement::Eval { value: RValue { id: 1 } }]);
    bx.atomic_fence(&mut cx, AtomicOrdering::Acquire, SynchronizationScope::CrossThread);
    assert_eq!(
        cx.values[3].node,
        Node::Call { func: Function::Builtin { which: Builtin::AtomicThreadFence } }
    );
}

#[test]
fn memcpy_calls_the_library_function() {
    let (mut cx, _f, mut bx) = setup();
    let i32_type = cx.type_int(32);
    let u32_type = cx.type_uint(32);
    let dst = bx.alloca(&mut cx, i32_type, 4);
    let src = bx.alloca(&mut cx, i32_type, 4);
    let size = cx.new_rvalue_from_long(u32_type, 4);
    let n = cx.values.len();
    let flags = MemFlags { volatile: false, nontemporal: false, unaligned: false };
    bx.memcpy(&mut cx, dst, 4, src, 4, size, flags).unwrap();

    let size_cast = RValue { id: n };
    assert_eq!(cx.node(size_cast), Node::Cast { value: size });
    assert_eq!(cx.val_ty(size_cast), cx.type_usize());
    let dst_cast = RValue { id: n + 1 };
    assert_eq!(cx.node(dst_cast), Node::Cast { value: dst });
    assert_eq!(cx.pointee(cx.val_ty(dst_cast)), Some(cx.type_int(8)));
    let src_cast = RValue { id: n + 2 };
    assert_eq!(cx.node(src_cast), Node::Cast { value: src });
    assert_eq!(cx.pointee(cx.val_ty(src_cast)), Some(cx.type_void()));
    let call = RValue { id: n + 3 };
    assert_eq!(
        cx.node(call),
        Node::Call { func: Function::Builtin { which: Builtin::Memcpy } }
    );
    assert_eq!(cx.values[call.id].args, vec![dst_cast, src_cast, size_cast]);
    assert_eq!(cx.blocks[0].statements, vec![Statement::Eval { value: call }]);
}

#[test]
fn memmove_calls_the_library_function() {
    let (mut cx, _f, mut bx) = setup();
    let i32_type = cx.type_int(32);
    let dst = bx.alloca(&mut cx, i32_type, 4);
    let src = bx.alloca(&mut cx, i32_type, 4);
    let size = cx.const_usize(4);
    let flags = MemFlags { volatile: true, nontemporal: false, unaligned: false };
    bx.memmove(&mut cx, dst, 4, src, 4, size, flags).unwrap();
    let call = RValue { id: cx.values.len() - 1 };
    assert_eq!(
        cx.node(call),
        Node::Call { func: Function::Builtin { which: Builtin::Memmove } }
    );
    assert_eq!(cx.blocks[0].statements, vec![Statement::Eval { value: call }]);
}

#[test]
fn a_non_temporal_copy_loads_and_stores_one_value() {
    let (mut cx, _f, mut bx) = setup();
    let i32_type = cx.type_int(32);
    let dst = bx.alloca(&mut cx, i32_type, 4);
    let src = bx.alloca(&mut cx, i32_type, 4);
    let size = cx.const_usize(4);
    let flags = MemFlags { volatile: false, nontemporal: true, unaligned: false };
    bx.memcpy(&mut cx, dst, 4, src, 4, size, flags).unwrap();
    assert_eq!(cx.blocks[0].statements.len(), 2);
    let loaded = match cx.blocks[0].statements[0] {
        Statement::Assign { place, value } => {
            assert_eq!(cx.node(value), Node::Deref { ptr: src });
            place
        }
        _ => panic!("no load"),
    };
    match cx.blocks[0].statements[1] {
        Statement::Assign { place, value } => {
            assert_eq!(value, RValue { id: loaded.id });
            match cx.node(RValue { id: place.id }) {
                Node::Deref { ptr } => assert_eq!(cx.pointee(cx.val_ty(ptr)), Some(cx.val_ty(value))),
                _ => panic!("no store through a pointer"),
            }
        }
        _ => panic!("no store"),
    }
    for v in &cx.values {
        assert!(!matches!(v.node, Node::Call { .. }));
    }
}

#[test]
fn a_non_temporal_copy_needs_a_pointer_to_copy_from() {
    let (mut cx, _f, mut bx) = setup();
    let i32_type = cx.type_int(32);
    let dst = bx.alloca(&mut cx, i32_type, 4);
    let src = cx.new_rvalue_from_long(i32_type, 0);
    let size = cx.const_usize(4);
    let flags = MemFlags { volatile: false, nontemporal: true, unaligned: false };
    let n = cx.values.len();
    assert_eq!(
        bx.memmove(&mut cx, dst, 4, src, 4, size, flags),
        Err(LowerError::UnexpectedType)
    );
    assert_eq!(cx.values.len(), n);
}

#[test]
fn memset_calls_the_library_function() {
    let (mut cx, _f, mut bx) = setup();
    let i32_type = cx.type_int(32);
    let u8_type = cx.type_uint(8);
    let ptr = bx.alloca(&mut cx, i32_type, 4);
    let byte = cx.new_rvalue_from_long(u8_type, 0xff);
    let size = cx.const_usize(4);
    let n = cx.values.len();
    let flags = MemFlags { volatile: false, nontemporal: false, unaligned: false };
    bx.memset(&mut cx, ptr, byte, size, 4, flags);
    let ptr_cast = RValue { id: n };
    assert_eq!(cx.node(ptr_cast), Node::Cast { value: ptr });
    let byte_cast = RValue { id: n + 1 };
    assert_eq!(cx.node(byte_cast), Node::Cast { value: byte });
    assert_eq!(cx.val_ty(byte_cast), i32_type);
    let size_cast = RValue { id: n + 2 };
    assert_eq!(cx.node(size_cast), Node::Cast { value: size });
    let call = RValue { id: n + 3 };
    assert_eq!(
        cx.node(call),
        Node::Call { func: Function::Builtin { which: Builtin::Memset } }
    );
    assert_eq!(cx.values[call.id].args, vec![ptr_cast, byte_cast, size_cast]);
    assert_eq!(cx.blocks[0].statements, vec![Statement::Eval { value: call }]);
    assert_eq!(bx.block, Some(Block { id: 0 }));
}
