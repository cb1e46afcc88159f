//! Instruction categories of the front end and operator kinds of the target
//! IR, with the tables that map one to the other.

use vstd::prelude::*;

verus! {

/// Binary operators of the target IR.
#[derive(Clone, Copy, Debug, PartialEq, Eq, Structural)]
pub enum BinaryOp {
    Plus,
    Minus,
    Mult,
    Divide,
    Modulo,
    BitwiseAnd,
    BitwiseXor,
    BitwiseOr,
    LogicalAnd,
    LogicalOr,
    LShift,
    RShift,
}

/// Unary operators of the target IR.
#[derive(Clone, Copy, Debug, PartialEq, Eq, Structural)]
pub enum UnaryOp {
    Minus,
    BitwiseNegate,
    LogicalNegate,
    Abs,
}

/// Comparison operators of the target IR. Signedness is carried by the
/// operands' types, not by the operator.
#[derive(Clone, Copy, Debug, PartialEq, Eq, Structural)]
pub enum ComparisonOp {
    Equals,
    NotEquals,
    LessThan,
    LessThanEquals,
    GreaterThan,
    GreaterThanEquals,
}

/// Integer comparison predicates of the front end.
#[derive(Clone, Copy, Debug, PartialEq, Eq, Structural)]
pub enum IntPredicate {
    IntEQ,
    IntNE,
    IntUGT,
    IntUGE,
    IntULT,
    IntULE,
    IntSGT,
    IntSGE,
    IntSLT,
    IntSLE,
}

/// Floating-point comparison predicates of the front end.
#[derive(Clone, Copy, Debug, PartialEq, Eq, Structural)]
pub enum RealPredicate {
    RealPredicateFalse,
    RealOEQ,
    RealOGT,
    RealOGE,
    RealOLT,
    RealOLE,
    RealONE,
    RealORD,
    RealUNO,
    RealUEQ,
    RealUGT,
    RealUGE,
    RealULT,
    RealULE,
    RealUNE,
    RealPredicateTrue,
}

/// Memory-ordering constraint carried by an atomic instruction.
#[derive(Clone, Copy, Debug, PartialEq, Eq, Structural)]
pub enum AtomicOrdering {
    NotAtomic,
    Unordered,
    Monotonic,
    Acquire,
    Release,
    AcquireRelease,
    SequentiallyConsistent,
}

/// Memory orders as the target's atomic builtins number them.
#[derive(Clone, Copy, Debug, PartialEq, Eq, Structural)]
pub enum MemOrdering {
    Relaxed,
    Consume,
    Acquire,
    Release,
    AcqRel,
    SeqCst,
}

/// Read-modify-write operations of the front end.
#[derive(Clone, Copy, Debug, PartialEq, Eq, Structural)]
pub enum AtomicRmwBinOp {
    AtomicXchg,
    AtomicAdd,
    AtomicSub,
    AtomicAnd,
    AtomicNand,
    AtomicOr,
    AtomicXor,
    AtomicMax,
    AtomicMin,
    AtomicUMax,
    AtomicUMin,
}

/// Which threads a fence synchronises with.
#[derive(Clone, Copy, Debug, PartialEq, Eq, Structural)]
pub enum SynchronizationScope {
    Other,
    SingleThread,
    CrossThread,
}

/// Arithmetic operations that exist in an overflow-checked form.
#[derive(Clone, Copy, Debug, PartialEq, Eq, Structural)]
pub enum OverflowOp {
    Add,
    Sub,
    Mul,
}

/// Width of a pointer on the target.
#[derive(Clone, Copy, Debug, PartialEq, Eq, Structural)]
pub enum PtrWidth {
    W16,
    W32,
    W64,
}

/// Width of an integer type of the front end.
#[derive(Clone, Copy, Debug, PartialEq, Eq, Structural)]
pub enum IntWidth {
    Size,
    W8,
    W16,
    W32,
    W64,
    W128,
}

/// The category of a front-end type, as far as arithmetic needs it.
#[derive(Clone, Copy, Debug, PartialEq, Eq, Structural)]
pub enum TyKind {
    Int(IntWidth),
    Uint(IntWidth),
    Other,
}

/// Flags on a memory access.
#[derive(Clone, Copy, Debug, PartialEq, Eq, Structural)]
pub struct MemFlags {
    pub volatile: bool,
    pub nontemporal: bool,
    pub unaligned: bool,
}

/// Functions that the target library provides by name.
#[derive(Clone, Copy, Debug, PartialEq, Eq, Structural)]
pub enum Builtin {
    Unreachable,
    AddOverflow,
    SaddOverflow,
    SaddllOverflow,
    UaddOverflow,
    UaddllOverflow,
    SubOverflow,
    SsubOverflow,
    SsubllOverflow,
    UsubOverflow,
    UsubllOverflow,
    MulOverflow,
    SmulOverflow,
    SmulllOverflow,
    UmulOverflow,
    UmulllOverflow,
    Memcpy,
    Memmove,
    Memset,
    AtomicLoadN,
    AtomicStoreN,
    AtomicCompareExchangeN,
    AtomicExchangeN,
    AtomicFetchAdd,
    AtomicFetchSub,
    AtomicFetchAnd,
    AtomicFetchNand,
    AtomicFetchOr,
    AtomicFetchXor,
    AtomicThreadFence,
    AtomicSignalFence,
}

/// Why an instruction could not be lowered.
#[derive(Clone, Copy, Debug, PartialEq, Eq, Structural)]
pub enum LowerError {
    /// The instruction kind has no lowering.
    Unsupported,
    /// An operand's type is of a kind that the instruction cannot work on.
    UnexpectedType,
    /// A field or element index is out of range.
    BadIndex,
}

impl IntPredicate {
    /// The target comparison for an integer predicate: the signed and the
    /// unsigned form of an ordering share one operator.
    pub open spec fn spec_to_gcc_comparison(self) -> ComparisonOp {
        match self {
            IntPredicate::IntEQ => ComparisonOp::Equals,
            IntPredicate::IntNE => ComparisonOp::NotEquals,
            IntPredicate::IntUGT | IntPredicate::IntSGT => ComparisonOp::GreaterThan,
            IntPredicate::IntUGE | IntPredicate::IntSGE => ComparisonOp::GreaterThanEquals,
            IntPredicate::IntULT | IntPredicate::IntSLT => ComparisonOp::LessThan,
            IntPredicate::IntULE | IntPredicate::IntSLE => ComparisonOp::LessThanEquals,
        }
    }

    pub fn to_gcc_comparison(&self) -> (r: ComparisonOp)
        ensures
            r == self.spec_to_gcc_comparison(),
    {
        match *self {
            IntPredicate::IntEQ => ComparisonOp::Equals,
            IntPredicate::IntNE => ComparisonOp::NotEquals,
            IntPredicate::IntUGT => ComparisonOp::GreaterThan,
            IntPredicate::IntUGE => ComparisonOp::GreaterThanEquals,
            IntPredicate::IntULT => ComparisonOp::LessThan,
            IntPredicate::IntULE => ComparisonOp::LessThanEquals,
            IntPredicate::IntSGT => ComparisonOp::GreaterThan,
            IntPredicate::IntSGE => ComparisonOp::GreaterThanEquals,
            IntPredicate::IntSLT => ComparisonOp::LessThan,
            IntPredicate::IntSLE => ComparisonOp::LessThanEquals,
        }
    }
}

impl RealPredicate {
    /// Whether the predicate is decided by comparing its operands: the
    /// constant predicates and the two ordering tests are not.
    pub open spec fn comparable(self) -> bool {
        !(self matches RealPredicate::RealPredicateFalse
            || self matches RealPredicate::RealORD
            || self matches RealPredicate::RealUNO
            || self matches RealPredicate::RealPredicateTrue)
    }

    /// The target comparison for a predicate, where it has one. The ordered
    /// and the unordered form share an operator, and the unordered `>=` and
    /// `<=` are lowered to the strict operator.
    pub open spec fn spec_to_gcc_comparison(self) -> Option<ComparisonOp> {
        match self {
            RealPredicate::RealOEQ | RealPredicate::RealUEQ => Some(ComparisonOp::Equals),
            RealPredicate::RealONE | RealPredicate::RealUNE => Some(ComparisonOp::NotEquals),
            RealPredicate::RealOGT | RealPredicate::RealUGT | RealPredicate::RealUGE => Some(
                ComparisonOp::GreaterThan,
            ),
            RealPredicate::RealOGE => Some(ComparisonOp::GreaterThanEquals),
            RealPredicate::RealOLT | RealPredicate::RealULT | RealPredicate::RealULE => Some(
                ComparisonOp::LessThan,
            ),
            RealPredicate::RealOLE => Some(ComparisonOp::LessThanEquals),
            RealPredicate::RealPredicateFalse
            | RealPredicate::RealORD
            | RealPredicate::RealUNO
            | RealPredicate::RealPredicateTrue => None,
        }
    }

    /// The comparison of a comparable predicate; `Err(Unsupported)` exactly
    /// for the predicates that are not comparable.
    pub fn to_gcc_comparison(&self) -> (r: Result<ComparisonOp, LowerError>)
        ensures
            self.comparable() <==> r is Ok,
            r matches Ok(op) ==> self.spec_to_gcc_comparison() == Some(op),
            r matches Err(e) ==> e == LowerError::Unsupported,
    {
        match *self {
            RealPredicate::RealPredicateFalse => Err(LowerError::Unsupported),
            RealPredicate::RealOEQ => Ok(ComparisonOp::Equals),
            RealPredicate::RealOGT => Ok(ComparisonOp::GreaterThan),
            RealPredicate::RealOGE => Ok(ComparisonOp::GreaterThanEquals),
            RealPredicate::RealOLT => Ok(ComparisonOp::LessThan),
            RealPredicate::RealOLE => Ok(ComparisonOp::LessThanEquals),
            RealPredicate::RealONE => Ok(ComparisonOp::NotEquals),
            RealPredicate::RealORD => Err(LowerError::Unsupported),
            RealPredicate::RealUNO => Err(LowerError::Unsupported),
            RealPredicate::RealUEQ => Ok(ComparisonOp::Equals),
            RealPredicate::RealUGT => Ok(ComparisonOp::GreaterThan),
            RealPredicate::RealUGE => Ok(ComparisonOp::GreaterThan),
            RealPredicate::RealULT => Ok(ComparisonOp::LessThan),
            RealPredicate::RealULE => Ok(ComparisonOp::LessThan),
            RealPredicate::RealUNE => Ok(ComparisonOp::NotEquals),
            RealPredicate::RealPredicateTrue => Err(LowerError::Unsupported),
        }
    }
}

impl MemOrdering {
    /// The number of a memory order: relaxed is 0, sequentially consistent 5.
    pub open spec fn spec_number(self) -> int {
        match self {
            MemOrdering::Relaxed => 0,
            MemOrdering::Consume => 1,
            MemOrdering::Acquire => 2,
            MemOrdering::Release => 3,
            MemOrdering::AcqRel => 4,
            MemOrdering::SeqCst => 5,
        }
    }

    pub fn number(self) -> (r: i32)
        ensures
            r == self.spec_number(),
    {
        match self {
            MemOrdering::Relaxed => 0,
            MemOrdering::Consume => 1,
            MemOrdering::Acquire => 2,
            MemOrdering::Release => 3,
            MemOrdering::AcqRel => 4,
            MemOrdering::SeqCst => 5,
        }
    }
}

impl AtomicOrdering {
    /// The memory order that stands for a front-end ordering: everything
    /// weaker than acquire and release is relaxed.
    pub open spec fn mem_ordering(self) -> MemOrdering {
        match self {
            AtomicOrdering::NotAtomic | AtomicOrdering::Unordered | AtomicOrdering::Monotonic =>
                MemOrdering::Relaxed,
            AtomicOrdering::Acquire => MemOrdering::Acquire,
            AtomicOrdering::Release => MemOrdering::Release,
            AtomicOrdering::AcquireRelease => MemOrdering::AcqRel,
            AtomicOrdering::SequentiallyConsistent => MemOrdering::SeqCst,
        }
    }

    /// The integer that the atomic builtins take for this ordering.
    pub open spec fn spec_to_gcc(self) -> int {
        self.mem_ordering().spec_number()
    }

    /// The same number, as the constant that is handed to a builtin.
    pub open spec fn spec_code(self) -> i64 {
        match self.mem_ordering() {
            MemOrdering::Relaxed => 0,
            MemOrdering::Consume => 1,
            MemOrdering::Acquire => 2,
            MemOrdering::Release => 3,
            MemOrdering::AcqRel => 4,
            MemOrdering::SeqCst => 5,
        }
    }

    pub fn code(self) -> (r: i64)
        ensures
            r == self.spec_code(),
            r == self.spec_to_gcc(),
    {
        match self {
            AtomicOrdering::NotAtomic => 0,
            AtomicOrdering::Unordered => 0,
            AtomicOrdering::Monotonic => 0,
            AtomicOrdering::Acquire => 2,
            AtomicOrdering::Release => 3,
            AtomicOrdering::AcquireRelease => 4,
            AtomicOrdering::SequentiallyConsistent => 5,
        }
    }

    pub fn to_gcc(self) -> (r: i32)
        ensures
            r == self.spec_to_gcc(),
            0 <= r <= 5,
    {
        let ordering = match self {
            AtomicOrdering::NotAtomic => MemOrdering::Relaxed,
            AtomicOrdering::Unordered => MemOrdering::Relaxed,
            AtomicOrdering::Monotonic => MemOrdering::Relaxed,
            AtomicOrdering::Acquire => MemOrdering::Acquire,
            AtomicOrdering::Release => MemOrdering::Release,
            AtomicOrdering::AcquireRelease => MemOrdering::AcqRel,
            AtomicOrdering::SequentiallyConsistent => MemOrdering::SeqCst,
        };
        ordering.number()
    }
}

impl IntWidth {
    /// The fixed width that stands for this one on a target: the
    /// pointer-sized width becomes the target's pointer width, every other
    /// width is itself.
    pub open spec fn spec_normalize(self, ptr_width: PtrWidth) -> IntWidth {
        match self {
            IntWidth::Size => match ptr_width {
                PtrWidth::W16 => IntWidth::W16,
                PtrWidth::W32 => IntWidth::W32,
                PtrWidth::W64 => IntWidth::W64,
            },
            w => w,
        }
    }

    pub fn normalize(self, ptr_width: PtrWidth) -> (r: IntWidth)
        ensures
            r == self.spec_normalize(ptr_width),
            r != IntWidth::Size,
    {
        match self {
            IntWidth::Size => match ptr_width {
                PtrWidth::W16 => IntWidth::W16,
                PtrWidth::W32 => IntWidth::W32,
                PtrWidth::W64 => IntWidth::W64,
            },
            IntWidth::W8 => IntWidth::W8,
            IntWidth::W16 => IntWidth::W16,
            IntWidth::W32 => IntWidth::W32,
            IntWidth::W64 => IntWidth::W64,
            IntWidth::W128 => IntWidth::W128,
        }
    }

    /// The number of bits of a fixed width; the pointer-sized width has none
    /// until it is normalised.
    pub open spec fn spec_bits(self) -> Option<int> {
        match self {
            IntWidth::Size => None,
            IntWidth::W8 => Some(8),
            IntWidth::W16 => Some(16),
            IntWidth::W32 => Some(32),
            IntWidth::W64 => Some(64),
            IntWidth::W128 => Some(128),
        }
    }
}

/// The three shapes in which the target offers an overflow-checked
/// operation: one generic over its operand types, one on `int`-sized
/// operands, one on `long long`-sized operands.
#[derive(Clone, Copy, Debug, PartialEq, Eq, Structural)]
pub enum BuiltinShape {
    Generic,
    Word,
    LongLong,
}

impl BuiltinShape {
    /// The shape for a fixed width: 8 and 16 bits take the generic builtin,
    /// 32 bits the word builtin, 64 and 128 bits the long-long builtin.
    pub open spec fn of_width(width: IntWidth) -> BuiltinShape
        recommends
            width != IntWidth::Size,
    {
        match width {
            IntWidth::W8 | IntWidth::W16 => BuiltinShape::Generic,
            IntWidth::W32 => BuiltinShape::Word,
            _ => BuiltinShape::LongLong,
        }
    }
}

/// The overflow-checking builtin for an operation, a signedness and a shape.
pub open spec fn overflow_table(op: OverflowOp, signed: bool, shape: BuiltinShape) -> Builtin {
    match (op, shape, signed) {
        (OverflowOp::Add, BuiltinShape::Generic, _) => Builtin::AddOverflow,
        (OverflowOp::Add, BuiltinShape::Word, true) => Builtin::SaddOverflow,
        (OverflowOp::Add, BuiltinShape::Word, false) => Builtin::UaddOverflow,
        (OverflowOp::Add, BuiltinShape::LongLong, true) => Builtin::SaddllOverflow,
        (OverflowOp::Add, BuiltinShape::LongLong, false) => Builtin::UaddllOverflow,
        (OverflowOp::Sub, BuiltinShape::Generic, _) => Builtin::SubOverflow,
        (OverflowOp::Sub, BuiltinShape::Word, true) => Builtin::SsubOverflow,
        (OverflowOp::Sub, BuiltinShape::Word, false) => Builtin::UsubOverflow,
        (OverflowOp::Sub, BuiltinShape::LongLong, true) => Builtin::SsubllOverflow,
        (OverflowOp::Sub, BuiltinShape::LongLong, false) => Builtin::UsubllOverflow,
        (OverflowOp::Mul, BuiltinShape::Generic, _) => Builtin::MulOverflow,
        (OverflowOp::Mul, BuiltinShape::Word, true) => Builtin::SmulOverflow,
        (OverflowOp::Mul, BuiltinShape::Word, false) => Builtin::UmulOverflow,
        (OverflowOp::Mul, BuiltinShape::LongLong, true) => Builtin::SmulllOverflow,
        (OverflowOp::Mul, BuiltinShape::LongLong, false) => Builtin::UmulllOverflow,
    }
}

impl TyKind {
    /// The overflow-checking builtin for an operation on this type, on a
    /// target with the given pointer width; none for a non-integer type.
    pub open spec fn spec_overflow_builtin(self, op: OverflowOp, ptr_width: PtrWidth) -> Option<
        Builtin,
    > {
        match self {
            TyKind::Int(w) => Some(
                overflow_table(op, true, BuiltinShape::of_width(w.spec_normalize(ptr_width))),
            ),
            TyKind::Uint(w) => Some(
                overflow_table(op, false, BuiltinShape::of_width(w.spec_normalize(ptr_width))),
            ),
            TyKind::Other => None,
        }
    }

    /// Looks the builtin up. `Err(UnexpectedType)` exactly for a type that
    /// is not an integer.
    pub fn overflow_builtin(self, op: OverflowOp, ptr_width: PtrWidth) -> (r: Result<
        Builtin,
        LowerError,
    >)
        ensures
            r matches Ok(b) ==> self.spec_overflow_builtin(op, ptr_width) == Some(b),
            r matches Err(e) ==> self == TyKind::Other && e == LowerError::UnexpectedType,
    {
        let (signed, width) = match self {
            TyKind::Int(w) => (true, w.normalize(ptr_width)),
            TyKind::Uint(w) => (false, w.normalize(ptr_width)),
            TyKind::Other => {
                return Err(LowerError::UnexpectedType);
            },
        };
        let name = match op {
            OverflowOp::Add => match (signed, width) {
                (_, IntWidth::W8) => Builtin::AddOverflow,
                (_, IntWidth::W16) => Builtin::AddOverflow,
                (true, IntWidth::W32) => Builtin::SaddOverflow,
                (true, _) => Builtin::SaddllOverflow,
                (false, IntWidth::W32) => Builtin::UaddOverflow,
                (false, _) => Builtin::UaddllOverflow,
            },
            OverflowOp::Sub => match (signed, width) {
                (_, IntWidth::W8) => Builtin::SubOverflow,
                (_, IntWidth::W16) => Builtin::SubOverflow,
                (true, IntWidth::W32) => Builtin::SsubOverflow,
                (true, _) => Builtin::SsubllOverflow,
                (false, IntWidth::W32) => Builtin::UsubOverflow,
                (false, _) => Builtin::UsubllOverflow,
            },
            OverflowOp::Mul => match (signed, width) {
                (_, IntWidth::W8) => Builtin::MulOverflow,
                (_, IntWidth::W16) => Builtin::MulOverflow,
                (true, IntWidth::W32) => Builtin::SmulOverflow,
                (true, _) => Builtin::SmulllOverflow,
                (false, IntWidth::W32) => Builtin::UmulOverflow,
                (false, _) => Builtin::UmulllOverflow,
            },
        };
        Ok(name)
    }
}

impl Builtin {
    /// The identifier under which the target library knows the builtin.
    pub open spec fn spec_name(self) -> Seq<char> {
        match self {
            Builtin::Unreachable => "__builtin_unreachable"@,
            Builtin::AddOverflow => "__builtin_add_overflow"@,
            Builtin::SaddOverflow => "__builtin_sadd_overflow"@,
            Builtin::SaddllOverflow => "__builtin_saddll_overflow"@,
            Builtin::UaddOverflow => "__builtin_uadd_overflow"@,
            Builtin::UaddllOverflow => "__builtin_uaddll_overflow"@,
            Builtin::SubOverflow => "__builtin_sub_overflow"@,
            Builtin::SsubOverflow => "__builtin_ssub_overflow"@,
            Builtin::SsubllOverflow => "__builtin_ssubll_overflow"@,
            Builtin::UsubOverflow => "__builtin_usub_overflow"@,
            Builtin::UsubllOverflow => "__builtin_usubll_overflow"@,
            Builtin::MulOverflow => "__builtin_mul_overflow"@,
            Builtin::SmulOverflow => "__builtin_smul_overflow"@,
            Builtin::SmulllOverflow => "__builtin_smulll_overflow"@,
            Builtin::UmulOverflow => "__builtin_umul_overflow"@,
            Builtin::UmulllOverflow => "__builtin_umulll_overflow"@,
            Builtin::Memcpy => "memcpy"@,
            Builtin::Memmove => "memmove"@,
            Builtin::Memset => "memset"@,
            Builtin::AtomicLoadN => "__atomic_load_n"@,
            Builtin::AtomicStoreN => "__atomic_store_n"@,
            Builtin::AtomicCompareExchangeN => "__atomic_compare_exchange_n"@,
            Builtin::AtomicExchangeN => "__atomic_exchange_n"@,
            Builtin::AtomicFetchAdd => "__atomic_fetch_add"@,
            Builtin::AtomicFetchSub => "__atomic_fetch_sub"@,
            Builtin::AtomicFetchAnd => "__atomic_fetch_and"@,
            Builtin::AtomicFetchNand => "__atomic_fetch_nand"@,
            Builtin::AtomicFetchOr => "__atomic_fetch_or"@,
            Builtin::AtomicFetchXor => "__atomic_fetch_xor"@,
            Builtin::AtomicThreadFence => "__atomic_thread_fence"@,
            Builtin::AtomicSignalFence => "__atomic_signal_fence"@,
        }
    }

    pub fn name(self) -> (r: &'static str)
        ensures
            r@ == self.spec_name(),
    {
        match self {
            Builtin::Unreachable => "__builtin_unreachable",
            Builtin::AddOverflow => "__builtin_add_overflow",
            Builtin::SaddOverflow => "__builtin_sadd_overflow",
            Builtin::SaddllOverflow => "__builtin_saddll_overflow",
            Builtin::UaddOverflow => "__builtin_uadd_overflow",
            Builtin::UaddllOverflow => "__builtin_uaddll_overflow",
            Builtin::SubOverflow => "__builtin_sub_overflow",
            Builtin::SsubOverflow => "__builtin_ssub_overflow",
            Builtin::SsubllOverflow => "__builtin_ssubll_overflow",
            Builtin::UsubOverflow => "__builtin_usub_overflow",
            Builtin::UsubllOverflow => "__builtin_usubll_overflow",
            Builtin::MulOverflow => "__builtin_mul_overflow",
            Builtin::SmulOverflow => "__builtin_smul_overflow",
            Builtin::SmulllOverflow => "__builtin_smulll_overflow",
            Builtin::UmulOverflow => "__builtin_umul_overflow",
            Builtin::UmulllOverflow => "__builtin_umulll_overflow",
            Builtin::Memcpy => "memcpy",
            Builtin::Memmove => "memmove",
            Builtin::Memset => "memset",
            Builtin::AtomicLoadN => "__atomic_load_n",
            Builtin::AtomicStoreN => "__atomic_store_n",
            Builtin::AtomicCompareExchangeN => "__atomic_compare_exchange_n",
            Builtin::AtomicExchangeN => "__atomic_exchange_n",
            Builtin::AtomicFetchAdd => "__atomic_fetch_add",
            Builtin::AtomicFetchSub => "__atomic_fetch_sub",
            Builtin::AtomicFetchAnd => "__atomic_fetch_and",
            Builtin::AtomicFetchNand => "__atomic_fetch_nand",
            Builtin::AtomicFetchOr => "__atomic_fetch_or",
            Builtin::AtomicFetchXor => "__atomic_fetch_xor",
            Builtin::AtomicThreadFence => "__atomic_thread_fence",
            Builtin::AtomicSignalFence => "__atomic_signal_fence",
        }
    }
}

impl SynchronizationScope {
    /// The fence builtin for a scope: a fence among the handlers of one
    /// thread is a signal fence, every other one a thread fence.
    pub open spec fn spec_fence(self) -> Builtin {
        match self {
            SynchronizationScope::SingleThread => Builtin::AtomicSignalFence,
            _ => Builtin::AtomicThreadFence,
        }
    }

    pub fn fence(self) -> (r: Builtin)
        ensures
            r == self.spec_fence(),
    {
        match self {
            SynchronizationScope::Other => Builtin::AtomicThreadFence,
            SynchronizationScope::SingleThread => Builtin::AtomicSignalFence,
            SynchronizationScope::CrossThread => Builtin::AtomicThreadFence,
        }
    }
}

impl AtomicRmwBinOp {
    /// The builtin that performs the operation atomically; none for the
    /// minimum and maximum operations, which have no lowering.
    pub open spec fn spec_builtin(self) -> Option<Builtin> {
        match self {
            AtomicRmwBinOp::AtomicXchg => Some(Builtin::AtomicExchangeN),
            AtomicRmwBinOp::AtomicAdd => Some(Builtin::AtomicFetchAdd),
            AtomicRmwBinOp::AtomicSub => Some(Builtin::AtomicFetchSub),
            AtomicRmwBinOp::AtomicAnd => Some(Builtin::AtomicFetchAnd),
            AtomicRmwBinOp::AtomicNand => Some(Builtin::AtomicFetchNand),
            AtomicRmwBinOp::AtomicOr => Some(Builtin::AtomicFetchOr),
            AtomicRmwBinOp::AtomicXor => Some(Builtin::AtomicFetchXor),
            _ => None,
        }
    }

    pub fn builtin(self) -> (r: Option<Builtin>)
        ensures
            r == self.spec_builtin(),
    {
        match self {
            AtomicRmwBinOp::AtomicXchg => Some(Builtin::AtomicExchangeN),
            AtomicRmwBinOp::AtomicAdd => Some(Builtin::AtomicFetchAdd),
            AtomicRmwBinOp::AtomicSub => Some(Builtin::AtomicFetchSub),
            AtomicRmwBinOp::AtomicAnd => Some(Builtin::AtomicFetchAnd),
            AtomicRmwBinOp::AtomicNand => Some(Builtin::AtomicFetchNand),
            AtomicRmwBinOp::AtomicOr => Some(Builtin::AtomicFetchOr),
            AtomicRmwBinOp::AtomicXor => Some(Builtin::AtomicFetchXor),
            _ => None,
        }
    }
}

} // verus!
