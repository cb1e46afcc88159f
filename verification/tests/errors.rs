use codegen_gcc::ir::{Block, Function, RValue, Type, TypeKind};
use codegen_gcc::kinds::{LowerError, PtrWidth};
use codegen_gcc::{Builder, CodegenCx};

fn setup() -> (CodegenCx, Function, Builder) {
    let mut cx = CodegenCx::new(PtrWidth::W64);
    let void = cx.type_void();
    let func = cx.new_function("f", void, vec![]);
    cx.set_current_func(func);
    let bx = Builder::new_block(&mut cx, func, "entry");
    (cx, func, bx)
}

fn value(cx: &mut CodegenCx, ty: Type) -> RValue {
    cx.new_rvalue_from_long(ty, 0)
}

#[test]
fn instructions_without_a_lowering_say_so() {
    let (mut cx, _f, mut bx) = setup();
    let i32_type = cx.type_int(32);
    let v = value(&mut cx, i32_type);
    let b = Block { id: 0 };
    let before = bx;
    let unsupported = Err(LowerError::Unsupported);
    assert_eq!(bx.invoke(v, &vec![v], b, b), unsupported);
    assert_eq!(bx.fadd_fast(v, v), unsupported);
    assert_eq!(bx.fsub_fast(v, v), unsupported);
    assert_eq!(bx.fmul_fast(v, v), unsupported);
    assert_eq!(bx.fdiv_fast(v, v), unsupported);
    assert_eq!(bx.frem_fast(v, v), unsupported);
    assert_eq!(bx.dynamic_alloca(i32_type, 4), unsupported);
    assert_eq!(bx.array_alloca(i32_type, v, 4), unsupported);
    assert_eq!(bx.sext(v, i32_type), unsupported);
    assert_eq!(bx.va_arg(v, i32_type), unsupported);
    assert_eq!(bx.extract_element(v, v), unsupported);
    assert_eq!(bx.vector_splat(4, v), unsupported);
    assert_eq!(bx.landing_pad(i32_type, v, 1), unsupported);
    assert_eq!(bx.resume(v), unsupported);
    assert_eq!(bx.cleanup_ret(Some(b)), unsupported);
    assert_eq!(bx.catch_switch(None, None, 1), unsupported);
    assert_eq!(bx.get_static(7), unsupported);
    assert_eq!(bx.set_cleanup(v), Err(LowerError::Unsupported));
    assert_eq!(bx.cleanup_pad(None, &vec![]), Err(LowerError::Unsupported));
    assert_eq!(bx.catch_pad(v, &vec![]), Err(LowerError::Unsupported));
    assert_eq!(bx.add_handler(v, b), Err(LowerError::Unsupported));
    assert_eq!(bx.set_personality_fn(v), Err(LowerError::Unsupported));
    assert_eq!(bx.delete_basic_block(b), Err(LowerError::Unsupported));
    assert_eq!(bx.do_not_inline(v), Err(LowerError::Unsupported));
    assert_eq!(bx, before);
    assert_eq!(cx.values.len(), 1);
    assert!(cx.blocks[0].statements.is_empty());
}

#[test]
fn gep_needs_something_with_elements() {
    let (mut cx, _f, mut bx) = setup();
    let i32_type = cx.type_int(32);
    let v = value(&mut cx, i32_type);
    let n = cx.values.len();
    assert_eq!(bx.gep(&mut cx, v, &vec![v]), Err(LowerError::UnexpectedType));
    assert_eq!(bx.inbounds_gep(&mut cx, v, &vec![v]), Err(LowerError::UnexpectedType));
    assert_eq!(bx.inbounds_gep(&mut cx, v, &vec![v, v]), Err(LowerError::UnexpectedType));
    assert_eq!(cx.values.len(), n);
}

#[test]
fn inbounds_gep_takes_one_or_two_indices() {
    let (mut cx, _f, mut bx) = setup();
    let i32_type = cx.type_int(32);
    let p = cx.make_pointer(i32_type);
    let ptr = value(&mut cx, p);
    let i = value(&mut cx, i32_type);
    let n = cx.values.len();
    assert_eq!(bx.inbounds_gep(&mut cx, ptr, &vec![]), Err(LowerError::Unsupported));
    assert_eq!(bx.inbounds_gep(&mut cx, ptr, &vec![i, i, i]), Err(LowerError::Unsupported));
    assert_eq!(cx.values.len(), n);
}

#[test]
fn inbounds_gep_with_two_indices_needs_an_array_behind_the_pointer() {
    let (mut cx, _f, mut bx) = setup();
    let i32_type = cx.type_int(32);
    let p = cx.make_pointer(i32_type);
    let ptr = value(&mut cx, p);
    let i = value(&mut cx, i32_type);
    assert_eq!(bx.inbounds_gep(&mut cx, ptr, &vec![i, i]), Err(LowerError::UnexpectedType));
}

#[test]
fn struct_gep_errors() {
    let (mut cx, _f, mut bx) = setup();
    let i32_type = cx.type_int(32);
    let pair = cx.new_type(TypeKind::Struct, vec![i32_type, i32_type]);
    let vector = cx.new_type(TypeKind::Vector { elem: i32_type, units: 4 }, vec![]);
    let array = cx.new_type(TypeKind::Array { elem: i32_type, len: 4 }, vec![]);
    let ppair = cx.make_pointer(pair);
    let pvector = cx.make_pointer(vector);
    let parray = cx.make_pointer(array);
    let pint = cx.make_pointer(i32_type);
    let to_pair = value(&mut cx, ppair);
    let to_vector = value(&mut cx, pvector);
    let to_array = value(&mut cx, parray);
    let to_int = value(&mut cx, pint);
    let no_pointer = value(&mut cx, i32_type);
    let n = cx.values.len();
    assert_eq!(bx.struct_gep(&mut cx, to_pair, 2), Err(LowerError::BadIndex));
    assert_eq!(bx.struct_gep(&mut cx, to_vector, 0), Err(LowerError::Unsupported));
    assert_eq!(bx.struct_gep(&mut cx, to_array, u64::MAX), Err(LowerError::BadIndex));
    assert_eq!(bx.struct_gep(&mut cx, to_int, 0), Err(LowerError::UnexpectedType));
    assert_eq!(bx.struct_gep(&mut cx, no_pointer, 0), Err(LowerError::UnexpectedType));
    assert_eq!(cx.values.len(), n);
    assert!(bx.struct_gep(&mut cx, to_array, i64::MAX as u64).is_ok());
}

#[test]
fn extract_and_insert_value_errors() {
    let (mut cx, _f, mut bx) = setup();
    let i32_type = cx.type_int(32);
    let pair = cx.new_type(TypeKind::Struct, vec![i32_type, i32_type]);
    let vector = cx.new_type(TypeKind::Vector { elem: i32_type, units: 4 }, vec![]);
    let a_pair = value(&mut cx, pair);
    let a_vector = value(&mut cx, vector);
    let an_int = value(&mut cx, i32_type);
    let n = cx.values.len();
    assert_eq!(bx.extract_value(&mut cx, a_pair, 2), Err(LowerError::BadIndex));
    assert_eq!(bx.extract_value(&mut cx, a_vector, 0), Err(LowerError::Unsupported));
    assert_eq!(bx.extract_value(&mut cx, an_int, 0), Err(LowerError::UnexpectedType));
    assert_eq!(bx.insert_value(&mut cx, a_pair, an_int, 2), Err(LowerError::BadIndex));
    assert_eq!(bx.insert_value(&mut cx, a_vector, an_int, 0), Err(LowerError::Unsupported));
    assert_eq!(bx.insert_value(&mut cx, an_int, an_int, 0), Err(LowerError::UnexpectedType));
    assert_eq!(cx.values.len(), n);
    assert!(cx.blocks[0].statements.is_empty());
}
