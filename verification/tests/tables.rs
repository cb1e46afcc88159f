use codegen_gcc::kinds::{
    AtomicOrdering, AtomicRmwBinOp, Builtin, ComparisonOp, IntPredicate, IntWidth, LowerError,
    OverflowOp, PtrWidth, RealPredicate, SynchronizationScope, TyKind,
};

#[test]
fn ordering_numbers() {
    assert_eq!(AtomicOrdering::NotAtomic.to_gcc(), 0);
    assert_eq!(AtomicOrdering::Unordered.to_gcc(), 0);
    assert_eq!(AtomicOrdering::Monotonic.to_gcc(), 0);
    assert_eq!(AtomicOrdering::Acquire.to_gcc(), 2);
    assert_eq!(AtomicOrdering::Release.to_gcc(), 3);
    assert_eq!(AtomicOrdering::AcquireRelease.to_gcc(), 4);
    assert_eq!(AtomicOrdering::SequentiallyConsistent.to_gcc(), 5);
}

#[test]
fn ordering_codes_agree_with_numbers() {
    let all = [
        AtomicOrdering::NotAtomic,
        AtomicOrdering::Unordered,
        AtomicOrdering::Monotonic,
        AtomicOrdering::Acquire,
        AtomicOrdering::Release,
        AtomicOrdering::AcquireRelease,
        AtomicOrdering::SequentiallyConsistent,
    ];
    for o in all {
        assert_eq!(o.code(), o.to_gcc() as i64);
    }
}

#[test]
fn ordering_is_weakest_to_strongest() {
    assert!(AtomicOrdering::Monotonic.to_gcc() < AtomicOrdering::Acquire.to_gcc());
    assert!(AtomicOrdering::Monotonic.to_gcc() < AtomicOrdering::Release.to_gcc());
    assert!(AtomicOrdering::Acquire.to_gcc() < AtomicOrdering::AcquireRelease.to_gcc());
    assert!(AtomicOrdering::Release.to_gcc() < AtomicOrdering::AcquireRelease.to_gcc());
    assert!(
        AtomicOrdering::AcquireRelease.to_gcc() < AtomicOrdering::SequentiallyConsistent.to_gcc()
    );
}

#[test]
fn integer_predicates() {
    assert_eq!(IntPredicate::IntEQ.to_gcc_comparison(), ComparisonOp::Equals);
    assert_eq!(IntPredicate::IntNE.to_gcc_comparison(), ComparisonOp::NotEquals);
    assert_eq!(IntPredicate::IntUGT.to_gcc_comparison(), ComparisonOp::GreaterThan);
    assert_eq!(IntPredicate::IntUGE.to_gcc_comparison(), ComparisonOp::GreaterThanEquals);
    assert_eq!(IntPredicate::IntULT.to_gcc_comparison(), ComparisonOp::LessThan);
    assert_eq!(IntPredicate::IntULE.to_gcc_comparison(), ComparisonOp::LessThanEquals);
    assert_eq!(IntPredicate::IntSGT.to_gcc_comparison(), ComparisonOp::GreaterThan);
    assert_eq!(IntPredicate::IntSGE.to_gcc_comparison(), ComparisonOp::GreaterThanEquals);
    assert_eq!(IntPredicate::IntSLT.to_gcc_comparison(), ComparisonOp::LessThan);
    assert_eq!(IntPredicate::IntSLE.to_gcc_comparison(), ComparisonOp::LessThanEquals);
}

#[test]
fn real_predicates() {
    assert_eq!(RealPredicate::RealOEQ.to_gcc_comparison(), Ok(ComparisonOp::Equals));
    assert_eq!(RealPredicate::RealOGT.to_gcc_comparison(), Ok(ComparisonOp::GreaterThan));
    assert_eq!(RealPredicate::RealOGE.to_gcc_comparison(), Ok(ComparisonOp::GreaterThanEquals));
    assert_eq!(RealPredicate::RealOLT.to_gcc_comparison(), Ok(ComparisonOp::LessThan));
    assert_eq!(RealPredicate::RealOLE.to_gcc_comparison(), Ok(ComparisonOp::LessThanEquals));
    assert_eq!(RealPredicate::RealONE.to_gcc_comparison(), Ok(ComparisonOp::NotEquals));
    assert_eq!(RealPredicate::RealUEQ.to_gcc_comparison(), Ok(ComparisonOp::Equals));
    assert_eq!(RealPredicate::RealUGT.to_gcc_comparison(), Ok(ComparisonOp::GreaterThan));
    assert_eq!(RealPredicate::RealUGE.to_gcc_comparison(), Ok(ComparisonOp::GreaterThan));
    assert_eq!(RealPredicate::RealULT.to_gcc_comparison(), Ok(ComparisonOp::LessThan));
    assert_eq!(RealPredicate::RealULE.to_gcc_comparison(), Ok(ComparisonOp::LessThan));
    assert_eq!(RealPredicate::RealUNE.to_gcc_comparison(), Ok(ComparisonOp::NotEquals));
}

#[test]
fn real_predicates_without_comparison() {
    for p in [
        RealPredicate::RealPredicateFalse,
        RealPredicate::RealORD,
        RealPredicate::RealUNO,
        RealPredicate::RealPredicateTrue,
    ] {
        assert_eq!(p.to_gcc_comparison(), Err(LowerError::Unsupported));
    }
}

#[test]
fn pointer_sized_widths_are_normalized() {
    assert_eq!(IntWidth::Size.normalize(PtrWidth::W16), IntWidth::W16);
    assert_eq!(IntWidth::Size.normalize(PtrWidth::W32), IntWidth::W32);
    assert_eq!(IntWidth::Size.normalize(PtrWidth::W64), IntWidth::W64);
    assert_eq!(IntWidth::W8.normalize(PtrWidth::W64), IntWidth::W8);
    assert_eq!(IntWidth::W128.normalize(PtrWidth::W16), IntWidth::W128);
}

fn builtin(op: OverflowOp, ty: TyKind) -> &'static str {
    ty.overflow_builtin(op, PtrWidth::W64).unwrap().name()
}

#[test]
fn overflow_table_for_add() {
    assert_eq!(builtin(OverflowOp::Add, TyKind::Int(IntWidth::W8)), "__builtin_add_overflow");
    assert_eq!(builtin(OverflowOp::Add, TyKind::Int(IntWidth::W16)), "__builtin_add_overflow");
    assert_eq!(builtin(OverflowOp::Add, TyKind::Int(IntWidth::W32)), "__builtin_sadd_overflow");
    assert_eq!(builtin(OverflowOp::Add, TyKind::Int(IntWidth::W64)), "__builtin_saddll_overflow");
    assert_eq!(builtin(OverflowOp::Add, TyKind::Int(IntWidth::W128)), "__builtin_saddll_overflow");
    assert_eq!(builtin(OverflowOp::Add, TyKind::Uint(IntWidth::W8)), "__builtin_add_overflow");
    assert_eq!(builtin(OverflowOp::Add, TyKind::Uint(IntWidth::W16)), "__builtin_add_overflow");
    assert_eq!(builtin(OverflowOp::Add, TyKind::Uint(IntWidth::W32)), "__builtin_uadd_overflow");
    assert_eq!(builtin(OverflowOp::Add, TyKind::Uint(IntWidth::W64)), "__builtin_uaddll_overflow");
    assert_eq!(builtin(OverflowOp::Add, TyKind::Uint(IntWidth::W128)), "__builtin_uaddll_overflow");
}

#[test]
fn overflow_table_for_sub() {
    assert_eq!(builtin(OverflowOp::Sub, TyKind::Int(IntWidth::W8)), "__builtin_sub_overflow");
    assert_eq!(builtin(OverflowOp::Sub, TyKind::Int(IntWidth::W32)), "__builtin_ssub_overflow");
    assert_eq!(builtin(OverflowOp::Sub, TyKind::Int(IntWidth::W64)), "__builtin_ssubll_overflow");
    assert_eq!(builtin(OverflowOp::Sub, TyKind::Uint(IntWidth::W16)), "__builtin_sub_overflow");
    assert_eq!(builtin(OverflowOp::Sub, TyKind::Uint(IntWidth::W32)), "__builtin_usub_overflow");
    assert_eq!(builtin(OverflowOp::Sub, TyKind::Uint(IntWidth::W128)), "__builtin_usubll_overflow");
}

#[test]
fn overflow_table_for_mul() {
    assert_eq!(builtin(OverflowOp::Mul, TyKind::Int(IntWidth::W16)), "__builtin_mul_overflow");
    assert_eq!(builtin(OverflowOp::Mul, TyKind::Int(IntWidth::W32)), "__builtin_smul_overflow");
    assert_eq!(builtin(OverflowOp::Mul, TyKind::Int(IntWidth::W128)), "__builtin_smulll_overflow");
    assert_eq!(builtin(OverflowOp::Mul, TyKind::Uint(IntWidth::W8)), "__builtin_mul_overflow");
    assert_eq!(builtin(OverflowOp::Mul, TyKind::Uint(IntWidth::W32)), "__builtin_umul_overflow");
    assert_eq!(builtin(OverflowOp::Mul, TyKind::Uint(IntWidth::W64)), "__builtin_umulll_overflow");
}

#[test]
fn overflow_table_follows_the_pointer_width() {
    let isize_ty = TyKind::Int(IntWidth::Size);
    let usize_ty = TyKind::Uint(IntWidth::Size);
    assert_eq!(
        isize_ty.overflow_builtin(OverflowOp::Add, PtrWidth::W16).unwrap().name(),
        "__builtin_add_overflow"
    );
    assert_eq!(
        isize_ty.overflow_builtin(OverflowOp::Add, PtrWidth::W32).unwrap().name(),
        "__builtin_sadd_overflow"
    );
    assert_eq!(
        isize_ty.overflow_builtin(OverflowOp::Add, PtrWidth::W64).unwrap().name(),
        "__builtin_saddll_overflow"
    );
    assert_eq!(
        usize_ty.overflow_builtin(OverflowOp::Mul, PtrWidth::W32).unwrap().name(),
        "__builtin_umul_overflow"
    );
    assert_eq!(
        usize_ty.overflow_builtin(OverflowOp::Sub, PtrWidth::W64).unwrap().name(),
        "__builtin_usubll_overflow"
    );
}

#[test]
fn overflow_table_has_no_entry_for_other_types() {
    assert_eq!(
        TyKind::Other.overflow_builtin(OverflowOp::Add, PtrWidth::W64),
        Err(LowerError::UnexpectedType)
    );
}

#[test]
fn atomic_builtins() {
    assert_eq!(AtomicRmwBinOp::AtomicXchg.builtin().unwrap().name(), "__atomic_exchange_n");
    assert_eq!(AtomicRmwBinOp::AtomicAdd.builtin().unwrap().name(), "__atomic_fetch_add");
    assert_eq!(AtomicRmwBinOp::AtomicSub.builtin().unwrap().name(), "__atomic_fetch_sub");
    assert_eq!(AtomicRmwBinOp::AtomicAnd.builtin().unwrap().name(), "__atomic_fetch_and");
    assert_eq!(AtomicRmwBinOp::AtomicNand.builtin().unwrap().name(), "__atomic_fetch_nand");
    assert_eq!(AtomicRmwBinOp::AtomicOr.builtin().unwrap().name(), "__atomic_fetch_or");
    assert_eq!(AtomicRmwBinOp::AtomicXor.builtin().unwrap().name(), "__atomic_fetch_xor");
    assert_eq!(AtomicRmwBinOp::AtomicMax.builtin(), None);
    assert_eq!(AtomicRmwBinOp::AtomicMin.builtin(), None);
    assert_eq!(AtomicRmwBinOp::AtomicUMax.builtin(), None);
    assert_eq!(AtomicRmwBinOp::AtomicUMin.builtin(), None);
}

#[test]
fn fence_builtins() {
    assert_eq!(SynchronizationScope::Other.fence().name(), "__atomic_thread_fence");
    assert_eq!(SynchronizationScope::CrossThread.fence().name(), "__atomic_thread_fence");
    assert_eq!(SynchronizationScope::SingleThread.fence().name(), "__atomic_signal_fence");
}

#[test]
fn other_builtin_names() {
    assert_eq!(Builtin::Unreachable.name(), "__builtin_unreachable");
    assert_eq!(Builtin::Memcpy.name(), "memcpy");
    assert_eq!(Builtin::Memmove.name(), "memmove");
    assert_eq!(Builtin::Memset.name(), "memset");
    assert_eq!(Builtin::AtomicLoadN.name(), "__atomic_load_n");
    assert_eq!(Builtin::AtomicStoreN.name(), "__atomic_store_n");
    assert_eq!(Builtin::AtomicCompareExchangeN.name(), "__atomic_compare_exchange_n");
}
