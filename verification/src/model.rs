//! The mathematical model of a context: what it holds, when that is well
//! formed, and the elementary changes that lowering makes to it.

use crate::ir::{
    Block, BlockView, Case, Function, FunctionView, LValue, Node, RValue, Statement, Terminator,
    Type, TypeKind, TypeView, ValueView,
};
use crate::kinds::PtrWidth;
use vstd::prelude::*;

verus! {

/// Number of type descriptors that every context starts with.
pub const BASIC_TYPES: usize = 14;

/// The kind of the `i`-th basic type on a target with the given pointer
/// width: void, bool, the five signed and the five unsigned fixed widths,
/// then the signed and the unsigned pointer-sized integer.
pub open spec fn basic_kind(i: int, ptr_width: PtrWidth) -> TypeKind {
    let ptr_bits: u8 = match ptr_width {
        PtrWidth::W16 => 16u8,
        PtrWidth::W32 => 32u8,
        PtrWidth::W64 => 64u8,
    };
    if i == 0 {
        TypeKind::Void
    } else if i == 1 {
        TypeKind::Bool
    } else if i == 2 {
        TypeKind::Int { bits: 8, signed: true }
    } else if i == 3 {
        TypeKind::Int { bits: 16, signed: true }
    } else if i == 4 {
        TypeKind::Int { bits: 32, signed: true }
    } else if i == 5 {
        TypeKind::Int { bits: 64, signed: true }
    } else if i == 6 {
        TypeKind::Int { bits: 128, signed: true }
    } else if i == 7 {
        TypeKind::Int { bits: 8, signed: false }
    } else if i == 8 {
        TypeKind::Int { bits: 16, signed: false }
    } else if i == 9 {
        TypeKind::Int { bits: 32, signed: false }
    } else if i == 10 {
        TypeKind::Int { bits: 64, signed: false }
    } else if i == 11 {
        TypeKind::Int { bits: 128, signed: false }
    } else if i == 12 {
        TypeKind::Int { bits: ptr_bits, signed: true }
    } else {
        TypeKind::Int { bits: ptr_bits, signed: false }
    }
}

/// Whether a kind is one of which the context keeps a single descriptor.
pub open spec fn interned(kind: TypeKind) -> bool {
    kind is Pointer || kind is Volatile || kind is Aligned
}

/// Everything that a context holds, as mathematical sequences.
#[verifier::ext_equal]
pub ghost struct CxView {
    pub ptr_width: PtrWidth,
    pub types: Seq<TypeView>,
    pub values: Seq<ValueView>,
    pub functions: Seq<FunctionView>,
    pub blocks: Seq<BlockView>,
    pub current_block: Option<Block>,
    pub current_func: Option<Function>,
    pub fresh: usize,
    pub function_addresses: Seq<RValue>,
}

impl CxView {
    // ----- handles -----

    pub open spec fn valid_type(self, t: Type) -> bool {
        t.id < self.types.len()
    }

    pub open spec fn valid_rvalue(self, v: RValue) -> bool {
        v.id < self.values.len()
    }

    pub open spec fn valid_rvalues(self, vs: Seq<RValue>) -> bool {
        forall|k: int| 0 <= k < vs.len() ==> (#[trigger] vs[k]).id < self.values.len()
    }

    pub open spec fn valid_lvalue(self, l: LValue) -> bool {
        l.id < self.values.len() && self.values[l.id as int].node.is_place()
    }

    pub open spec fn valid_block(self, b: Block) -> bool {
        b.id < self.blocks.len()
    }

    /// A function of the context, with a signature and blocks.
    pub open spec fn defined(self, f: Function) -> bool {
        f matches Function::Defined { id } && id < self.functions.len()
    }

    pub open spec fn valid_function(self, f: Function) -> bool {
        f is Builtin || self.defined(f)
    }

    /// A block that can still receive statements.
    pub open spec fn open_block(self, b: Block) -> bool {
        self.valid_block(b) && self.blocks[b.id as int].terminator is None
    }

    // ----- reading -----

    pub open spec fn kind(self, t: Type) -> TypeKind {
        self.types[t.id as int].kind
    }

    pub open spec fn type_of(self, v: RValue) -> Type {
        self.values[v.id as int].ty
    }

    pub open spec fn node(self, v: RValue) -> Node {
        self.values[v.id as int].node
    }

    /// The function that owns a block.
    pub open spec fn owner(self, b: Block) -> Function {
        Function::Defined { id: self.blocks[b.id as int].func }
    }

    pub open spec fn return_type(self, f: Function) -> Type
        recommends
            self.defined(f),
    {
        self.functions[f->id as int].return_type
    }

    /// The type that a pointer of type `t` points to; a volatile pointer
    /// points where the pointer under the qualifier does.
    pub open spec fn pointee(self, t: Type) -> Option<Type> {
        match self.kind(t) {
            TypeKind::Pointer { pointee } => Some(pointee),
            TypeKind::Volatile { inner } => match self.kind(inner) {
                TypeKind::Pointer { pointee } => Some(pointee),
                _ => None,
            },
            _ => None,
        }
    }

    /// The type of an element of a value of type `t` that can be indexed:
    /// an array, a vector or a pointer.
    pub open spec fn element(self, t: Type) -> Option<Type> {
        match self.kind(t) {
            TypeKind::Array { elem, .. } => Some(elem),
            TypeKind::Vector { elem, .. } => Some(elem),
            _ => self.pointee(t),
        }
    }

    /// The type of field `field` of a struct type.
    pub open spec fn field(self, t: Type, field: usize) -> Option<Type> {
        if self.kind(t) is Struct && field < self.types[t.id as int].members.len() {
            Some(self.types[t.id as int].members[field as int])
        } else {
            None
        }
    }

    pub open spec fn is_pointer(self, t: Type) -> bool {
        self.pointee(t) is Some
    }

    pub open spec fn is_signed(self, t: Type) -> bool {
        self.kind(t) matches TypeKind::Int { signed: true, .. }
    }

    pub open spec fn is_unsigned(self, t: Type) -> bool {
        self.kind(t) matches TypeKind::Int { signed: false, .. }
    }

    /// The descriptor of the given kind, if the context holds one.
    pub open spec fn find_kind(self, kind: TypeKind) -> Option<Type> {
        if exists|i: int| 0 <= i < self.types.len() && (#[trigger] self.types[i]).kind == kind {
            let i = choose|i: int| 0 <= i < self.types.len() && (#[trigger] self.types[i]).kind == kind;
            Some(Type { id: i as usize })
        } else {
            None
        }
    }

    // ----- well-formedness -----

    /// A descriptor that may stand at index `at`: it mentions earlier
    /// descriptors only, and a volatile type is not volatile twice.
    pub open spec fn type_ok(self, tv: TypeView, at: int) -> bool {
        &&& forall|k: int| 0 <= k < tv.members.len() ==> (#[trigger] tv.members[k]).id < at
        &&& match tv.kind {
            TypeKind::Pointer { pointee } => pointee.id < at,
            TypeKind::Volatile { inner } => inner.id < at && inner.id < self.types.len() && !(self.kind(inner) is Volatile),
            TypeKind::Aligned { inner, .. } => inner.id < at,
            TypeKind::Array { elem, .. } => elem.id < at,
            TypeKind::Vector { elem, .. } => elem.id < at,
            TypeKind::FunctionPtr { ret, .. } => ret.id < at,
            _ => true,
        }
    }

    /// A node that may stand at index `at`: it mentions earlier nodes only,
    /// its type and its function exist, and what it takes the address of is
    /// a location.
    pub open spec fn value_ok(self, vv: ValueView, at: int) -> bool {
        &&& self.valid_type(vv.ty)
        &&& forall|k: int| 0 <= k < vv.node.operands().len() ==> (#[trigger] vv.node.operands()[k]) < at
        &&& forall|k: int| 0 <= k < vv.args.len() ==> (#[trigger] vv.args[k]).id < at
        &&& match vv.node {
            Node::Param { func, index } => func < self.functions.len() && index
                < self.functions[func as int].params.len(),
            Node::FunctionRef { func } => self.valid_function(func),
            Node::Call { func } => self.valid_function(func),
            Node::Local { func, .. } => func < self.functions.len(),
            Node::AddressOf { place } => place.id < self.values.len() && self.values[place.id as int].node.is_place(),
            _ => true,
        }
    }

    pub open spec fn function_ok(self, fv: FunctionView) -> bool {
        &&& self.valid_type(fv.return_type)
        &&& forall|k: int| 0 <= k < fv.params.len() ==> (#[trigger] fv.params[k]).id < self.types.len()
    }

    pub open spec fn statement_ok(self, s: Statement) -> bool {
        match s {
            Statement::Eval { value } => self.valid_rvalue(value),
            Statement::Assign { place, value } => self.valid_lvalue(place) && self.valid_rvalue(
                value,
            ),
            Statement::AssignOp { place, value, .. } => self.valid_lvalue(place)
                && self.valid_rvalue(value),
        }
    }

    pub open spec fn terminator_ok(self, t: Terminator) -> bool {
        match t {
            Terminator::Return { value } => self.valid_rvalue(value),
            Terminator::VoidReturn => true,
            Terminator::Jump { target } => self.valid_block(target),
            Terminator::Conditional { cond, on_true, on_false } => self.valid_rvalue(cond)
                && self.valid_block(on_true) && self.valid_block(on_false),
            Terminator::Switch { value, default } => self.valid_rvalue(value) && self.valid_block(
                default,
            ),
        }
    }

    pub open spec fn case_ok(self, c: Case) -> bool {
        self.valid_rvalue(c.min) && self.valid_rvalue(c.max) && self.valid_block(c.dest)
    }

    pub open spec fn cases_ok(self, cases: Seq<Case>) -> bool {
        forall|k: int| 0 <= k < cases.len() ==> self.case_ok(#[trigger] cases[k])
    }

    /// A block whose owner, statements, terminator and cases all exist;
    /// only a switch has cases.
    pub open spec fn block_ok(self, bv: BlockView) -> bool {
        &&& bv.func < self.functions.len()
        &&& forall|k: int| 0 <= k < bv.statements.len() ==> self.statement_ok(#[trigger] bv.statements[k])
        &&& (bv.terminator matches Some(t) ==> self.terminator_ok(t))
        &&& self.cases_ok(bv.cases)
        &&& (bv.cases.len() > 0 ==> bv.terminator matches Some(Terminator::Switch { .. }))
    }

    #[verifier::opaque]
    pub open spec fn types_wf(self) -> bool {
        &&& self.types.len() >= BASIC_TYPES
        &&& forall|i: int| 0 <= i < BASIC_TYPES ==> (#[trigger] self.types[i]).kind == basic_kind(i, self.ptr_width)
        &&& forall|i: int| 0 <= i < self.types.len() ==> self.type_ok(#[trigger] self.types[i], i)
        &&& forall|i: int, j: int|
            0 <= i < j < self.types.len() && interned((#[trigger] self.types[i]).kind)
                ==> self.types[i].kind != (#[trigger] self.types[j]).kind
    }

    #[verifier::opaque]
    pub open spec fn values_wf(self) -> bool {
        forall|i: int| 0 <= i < self.values.len() ==> self.value_ok(#[trigger] self.values[i], i)
    }

    #[verifier::opaque]
    pub open spec fn functions_wf(self) -> bool {
        forall|i: int| 0 <= i < self.functions.len() ==> self.function_ok(#[trigger] self.functions[i])
    }

    #[verifier::opaque]
    pub open spec fn blocks_wf(self) -> bool {
        forall|i: int| 0 <= i < self.blocks.len() ==> self.block_ok(#[trigger] self.blocks[i])
    }

    /// The serial number of the slot at index `i`, if it is a numbered slot.
    pub open spec fn serial_at(self, i: int) -> Option<usize> {
        match self.values[i].node {
            Node::Local { name, .. } => name.serial(),
            _ => None,
        }
    }

    /// Every numbered slot has a number that the counter has handed out, and
    /// no two of them have the same.
    #[verifier::opaque]
    pub open spec fn names_wf(self) -> bool {
        &&& self.fresh <= self.values.len()
        &&& forall|i: int|
            0 <= i < self.values.len() ==> (#[trigger] self.serial_at(i) matches Some(s) ==> 1 <= s
                <= self.fresh)
        &&& forall|i: int, j: int|
            0 <= i < j < self.values.len() && (#[trigger] self.serial_at(i)) is Some
                ==> self.serial_at(i) != #[trigger] self.serial_at(j)
    }

    pub open spec fn cursor_wf(self) -> bool {
        &&& (self.current_block matches Some(b) ==> self.valid_block(b))
        &&& (self.current_func matches Some(f) ==> self.defined(f))
        &&& self.valid_rvalues(self.function_addresses)
        &&& self.function_addresses.no_duplicates()
    }

    /// Every table is small enough for its handles.
    pub open spec fn sizes_wf(self) -> bool {
        &&& self.types.len() <= usize::MAX
        &&& self.values.len() <= usize::MAX
        &&& self.functions.len() <= usize::MAX
        &&& self.blocks.len() <= usize::MAX
    }

    pub open spec fn wf(self) -> bool {
        &&& self.sizes_wf()
        &&& self.types_wf()
        &&& self.values_wf()
        &&& self.functions_wf()
        &&& self.blocks_wf()
        &&& self.names_wf()
        &&& self.cursor_wf()
    }

    /// Whether every block of function `f` has its terminator: the
    /// function can be handed over.
    pub open spec fn complete(self, f: Function) -> bool {
        forall|i: int|
            0 <= i < self.blocks.len() && (#[trigger] self.blocks[i]).func == f->id
                ==> self.blocks[i].terminator is Some
    }

    /// Whether the context's cursor stands on a block that can receive
    /// statements.
    pub open spec fn cursor_open(self) -> bool {
        self.current_block matches Some(b) && self.open_block(b)
    }

    /// Whether `next` can come out of this context by lowering: tables only
    /// grow, what is in them stays as it is, a block keeps its owner and its
    /// statements in their order, and a block that has its terminator is
    /// never touched again.
    pub open spec fn grows_to(self, next: CxView) -> bool {
        &&& self.ptr_width == next.ptr_width
        &&& self.types.is_prefix_of(next.types)
        &&& self.values.is_prefix_of(next.values)
        &&& self.functions.is_prefix_of(next.functions)
        &&& self.blocks.len() <= next.blocks.len()
        &&& self.fresh <= next.fresh
        &&& forall|i: int|
            0 <= i < self.blocks.len() ==> {
                let a = #[trigger] self.blocks[i];
                let b = next.blocks[i];
                &&& a.func == b.func
                &&& a.name == b.name
                &&& a.statements.is_prefix_of(b.statements)
                &&& (a.terminator is Some ==> b == a)
            }
    }

    /// Whether every block but `at` is in `next` what it is here, and no
    /// block has been added.
    pub open spec fn same_blocks_except(self, next: CxView, at: Block) -> bool {
        &&& next.blocks.len() == self.blocks.len()
        &&& forall|i: int|
            0 <= i < self.blocks.len() && i != at.id ==> #[trigger] next.blocks[i]
                == self.blocks[i]
    }

    // ----- elementary changes -----

    pub open spec fn push_type(self, tv: TypeView) -> CxView {
        CxView { types: self.types.push(tv), ..self }
    }

    pub open spec fn push_value(self, vv: ValueView) -> CxView {
        CxView { values: self.values.push(vv), ..self }
    }

    pub open spec fn push_function(self, fv: FunctionView) -> CxView {
        CxView { functions: self.functions.push(fv), ..self }
    }

    pub open spec fn push_block(self, bv: BlockView) -> CxView {
        CxView { blocks: self.blocks.push(bv), ..self }
    }

    /// The handle that the next node will get.
    pub open spec fn next_value(self) -> RValue {
        RValue { id: self.values.len() as usize }
    }

    pub open spec fn next_place(self) -> LValue {
        LValue { id: self.values.len() as usize }
    }

    pub open spec fn next_block(self) -> Block {
        Block { id: self.blocks.len() as usize }
    }

    pub open spec fn next_type(self) -> Type {
        Type { id: self.types.len() as usize }
    }

    /// A node without arguments.
    pub open spec fn with_node(self, node: Node, ty: Type) -> CxView {
        self.push_value(ValueView { node, ty, args: seq![] })
    }

    /// A new, empty, open block of function `func`.
    pub open spec fn with_block(self, func: usize, name: Seq<char>) -> CxView {
        self.push_block(
            BlockView { func, name, statements: seq![], terminator: None, cases: seq![] },
        )
    }

    /// Statement `s` appended to block `b`.
    pub open spec fn emit(self, b: Block, s: Statement) -> CxView {
        let old = self.blocks[b.id as int];
        CxView {
            blocks: self.blocks.update(
                b.id as int,
                BlockView { statements: old.statements.push(s), ..old },
            ),
            ..self
        }
    }

    /// Block `b` closed with terminator `t`.
    pub open spec fn terminate(self, b: Block, t: Terminator, cases: Seq<Case>) -> CxView {
        let old = self.blocks[b.id as int];
        CxView {
            blocks: self.blocks.update(b.id as int, BlockView { terminator: Some(t), cases, ..old }),
            ..self
        }
    }

    /// The context's cursor moved to block `b`.
    pub open spec fn position(self, b: Block) -> CxView {
        CxView { current_block: Some(b), ..self }
    }

    /// The location that pointer `ptr` points to.
    pub open spec fn with_deref(self, ptr: RValue) -> CxView {
        self.with_node(Node::Deref { ptr }, self.pointee(self.type_of(ptr))->0)
    }

    /// Element `index` of `base`.
    pub open spec fn with_element(self, base: RValue, index: RValue) -> CxView {
        self.with_node(Node::ArrayAccess { base, index }, self.element(self.type_of(base))->0)
    }

    /// `lhs op rhs`, of the type of `rhs`.
    pub open spec fn with_binary(
        self,
        op: crate::kinds::BinaryOp,
        lhs: RValue,
        rhs: RValue,
    ) -> CxView {
        self.with_node(Node::Binary { op, lhs, rhs }, self.type_of(rhs))
    }

    /// The comparison of `lhs` and `rhs`, a boolean.
    pub open spec fn with_comparison(
        self,
        op: crate::kinds::ComparisonOp,
        lhs: RValue,
        rhs: RValue,
    ) -> CxView {
        self.with_node(Node::Comparison { op, lhs, rhs }, Type { id: 1 })
    }

    /// A call of `func` with the given arguments and result type.
    pub open spec fn with_call(self, func: Function, ty: Type, args: Seq<RValue>) -> CxView {
        self.push_value(ValueView { node: Node::Call { func }, ty, args })
    }

    /// A call through pointer `ptr` with the given arguments and result type.
    pub open spec fn with_call_through(self, ptr: RValue, ty: Type, args: Seq<RValue>) -> CxView {
        self.push_value(ValueView { node: Node::CallThroughPtr { ptr }, ty, args })
    }

    /// Whether `t` is the type of a pointer to a function.
    pub open spec fn is_function_ptr(self, t: Type) -> bool {
        self.kind(t) is FunctionPtr
    }

    /// The parameter types of the signature behind a function-pointer type.
    pub open spec fn ptr_params(self, t: Type) -> Seq<Type> {
        self.types[t.id as int].members
    }

    /// The return type of the signature behind a function-pointer type.
    pub open spec fn ptr_return(self, t: Type) -> Type {
        match self.kind(t) {
            TypeKind::FunctionPtr { ret, .. } => ret,
            _ => t,
        }
    }

    /// The function being populated set to `f`.
    pub open spec fn enter(self, f: Function) -> CxView {
        CxView { current_func: Some(f), ..self }
    }

    /// Value `v` recorded as the address of an ordinary function, once.
    pub open spec fn note_address(self, v: RValue) -> CxView {
        if self.function_addresses.contains(v) {
            self
        } else {
            CxView { function_addresses: self.function_addresses.push(v), ..self }
        }
    }

    /// A new slot of function `func` under a name without a number.
    pub open spec fn with_local(self, func: usize, ty: Type, name: crate::ir::SlotName) -> CxView {
        self.with_node(Node::Local { func, name }, ty)
    }

    /// The address of location `place`: the pointer type, then the node.
    pub open spec fn with_address(self, place: LValue) -> CxView {
        let ty = self.type_of(place.to_value());
        self.with_pointer(ty).with_node(Node::AddressOf { place }, self.pointer_type(ty))
    }

    /// A new slot of function `func` under the next number of the counter.
    pub open spec fn with_fresh_local(self, func: usize, ty: Type, loaded: bool) -> CxView {
        let serial = (self.fresh + 1) as usize;
        let name = if loaded {
            crate::ir::SlotName::LoadedValue { serial }
        } else {
            crate::ir::SlotName::ReturnValue { serial }
        };
        CxView { fresh: serial, ..self.with_node(Node::Local { func, name }, ty) }
    }

    /// The descriptor of an interned kind: the one that is there, or a new
    /// one.
    pub open spec fn intern(self, kind: TypeKind) -> CxView {
        if self.find_kind(kind) is Some {
            self
        } else {
            self.push_type(TypeView { kind, members: seq![] })
        }
    }

    pub open spec fn interned_type(self, kind: TypeKind) -> Type {
        match self.find_kind(kind) {
            Some(t) => t,
            None => self.next_type(),
        }
    }

    /// The context once it holds the type of pointers to `t`.
    pub open spec fn with_pointer(self, t: Type) -> CxView {
        self.intern(TypeKind::Pointer { pointee: t })
    }

    /// The type of pointers to `t`.
    pub open spec fn pointer_type(self, t: Type) -> Type {
        self.interned_type(TypeKind::Pointer { pointee: t })
    }

    /// The context once it holds the volatile form of `t`; a volatile type
    /// is its own volatile form.
    pub open spec fn with_volatile(self, t: Type) -> CxView {
        if self.kind(t) is Volatile {
            self
        } else {
            self.intern(TypeKind::Volatile { inner: t })
        }
    }

    pub open spec fn volatile_type(self, t: Type) -> Type {
        if self.kind(t) is Volatile {
            t
        } else {
            self.interned_type(TypeKind::Volatile { inner: t })
        }
    }

    /// The context once it holds `t` aligned to `bytes`.
    pub open spec fn with_aligned(self, t: Type, bytes: u64) -> CxView {
        self.intern(TypeKind::Aligned { inner: t, bytes })
    }

    pub open spec fn aligned_type(self, t: Type, bytes: u64) -> Type {
        self.interned_type(TypeKind::Aligned { inner: t, bytes })
    }

    // ----- the elementary changes keep a context well formed -----

    /// The types are well formed wherever they are the same.
    proof fn lemma_types_kept(self, next: CxView)
        requires
            self.types_wf(),
            next.types == self.types,
            next.ptr_width == self.ptr_width,
        ensures
            next.types_wf(),
    {
        reveal(CxView::types_wf);
        assert forall|i: int| 0 <= i < next.types.len() implies next.type_ok(
            #[trigger] next.types[i],
            i,
        ) by {
            assert(self.type_ok(self.types[i], i));
        }
    }

    /// The functions stay well formed as the types grow.
    proof fn lemma_functions_kept(self, next: CxView)
        requires
            self.functions_wf(),
            next.functions == self.functions,
            self.types.len() <= next.types.len(),
        ensures
            next.functions_wf(),
    {
        reveal(CxView::functions_wf);
        assert forall|i: int| 0 <= i < next.functions.len() implies next.function_ok(
            #[trigger] next.functions[i],
        ) by {
            assert(self.function_ok(self.functions[i]));
        }
    }

    /// The values and their names stay well formed as types and functions
    /// are added.
    proof fn lemma_values_kept(self, next: CxView)
        requires
            self.values_wf(),
            self.names_wf(),
            next.values == self.values,
            next.fresh == self.fresh,
            self.types.len() <= next.types.len(),
            self.functions.is_prefix_of(next.functions),
        ensures
            next.values_wf(),
            next.names_wf(),
    {
        reveal(CxView::values_wf);
        reveal(CxView::names_wf);
        assert forall|i: int| 0 <= i < next.values.len() implies next.value_ok(
            #[trigger] next.values[i],
            i,
        ) by {
            assert(self.value_ok(self.values[i], i));
        }
        assert forall|i: int| 0 <= i < next.values.len() implies (#[trigger] next.serial_at(i)
            matches Some(s) ==> 1 <= s <= next.fresh) by {
            assert(self.serial_at(i) == next.serial_at(i));
        }
        assert forall|i: int, j: int|
            0 <= i < j < next.values.len() && (#[trigger] next.serial_at(i))
                is Some implies next.serial_at(i) != #[trigger] next.serial_at(j) by {
            assert(self.serial_at(i) == next.serial_at(i));
            assert(self.serial_at(j) == next.serial_at(j));
        }
    }

    /// The blocks stay well formed as values and functions are added.
    proof fn lemma_blocks_kept(self, next: CxView)
        requires
            self.blocks_wf(),
            next.blocks == self.blocks,
            self.values.is_prefix_of(next.values),
            self.functions.len() <= next.functions.len(),
        ensures
            next.blocks_wf(),
    {
        reveal(CxView::blocks_wf);
        assert forall|i: int| 0 <= i < next.blocks.len() implies next.block_ok(
            #[trigger] next.blocks[i],
        ) by {
            assert(self.block_ok(self.blocks[i]));
        }
    }

    pub proof fn lemma_push_value(self, vv: ValueView)
        requires
            self.wf(),
            self.value_ok(vv, self.values.len() as int),
            !(vv.node matches Node::Local { name, .. } && name.serial() is Some),
            self.values.len() < usize::MAX,
        ensures
            self.push_value(vv).wf(),
    {
        let next = self.push_value(vv);
        self.lemma_types_kept(next);
        self.lemma_functions_kept(next);
        self.lemma_blocks_kept(next);
        reveal(CxView::values_wf);
        reveal(CxView::names_wf);
        assert forall|i: int| 0 <= i < next.values.len() implies next.value_ok(
            #[trigger] next.values[i],
            i,
        ) by {
            if i < self.values.len() {
                assert(self.value_ok(self.values[i], i));
            }
        }
        assert forall|i: int| 0 <= i < next.values.len() implies (#[trigger] next.serial_at(i)
            matches Some(s) ==> 1 <= s <= next.fresh) by {
            if i < self.values.len() {
                assert(self.serial_at(i) == next.serial_at(i));
            }
        }
        assert forall|i: int, j: int|
            0 <= i < j < next.values.len() && (#[trigger] next.serial_at(i))
                is Some implies next.serial_at(i) != #[trigger] next.serial_at(j) by {
            assert(self.serial_at(i) == next.serial_at(i));
            if j < self.values.len() {
                assert(self.serial_at(j) == next.serial_at(j));
            }
        }
    }

    pub proof fn lemma_fresh_local(self, func: usize, ty: Type, loaded: bool)
        requires
            self.wf(),
            func < self.functions.len(),
            self.valid_type(ty),
            self.values.len() < usize::MAX,
        ensures
            self.with_fresh_local(func, ty, loaded).wf(),
    {
        let next = self.with_fresh_local(func, ty, loaded);
        let n = self.values.len() as int;
        self.lemma_types_kept(next);
        self.lemma_functions_kept(next);
        self.lemma_blocks_kept(next);
        reveal(CxView::values_wf);
        reveal(CxView::names_wf);
        assert(next.serial_at(n) == Some((self.fresh + 1) as usize));
        assert forall|i: int| 0 <= i < next.values.len() implies next.value_ok(
            #[trigger] next.values[i],
            i,
        ) by {
            if i < n {
                assert(self.value_ok(self.values[i], i));
            }
        }
        assert forall|i: int| 0 <= i < next.values.len() implies (#[trigger] next.serial_at(i)
            matches Some(s) ==> 1 <= s <= next.fresh) by {
            if i < n {
                assert(self.serial_at(i) == next.serial_at(i));
            }
        }
        assert forall|i: int, j: int|
            0 <= i < j < next.values.len() && (#[trigger] next.serial_at(i))
                is Some implies next.serial_at(i) != #[trigger] next.serial_at(j) by {
            assert(self.serial_at(i) == next.serial_at(i));
            if j < n {
                assert(self.serial_at(j) == next.serial_at(j));
            }
        }
    }

    pub proof fn lemma_push_type(self, tv: TypeView)
        requires
            self.wf(),
            self.type_ok(tv, self.types.len() as int),
            interned(tv.kind) ==> self.find_kind(tv.kind) is None,
            self.types.len() < usize::MAX,
        ensures
            self.push_type(tv).wf(),
    {
        let next = self.push_type(tv);
        let n = self.types.len() as int;
        self.lemma_functions_kept(next);
        self.lemma_values_kept(next);
        self.lemma_blocks_kept(next);
        reveal(CxView::types_wf);
        assert forall|i: int| 0 <= i < next.types.len() implies next.type_ok(
            #[trigger] next.types[i],
            i,
        ) by {
            if i < n {
                assert(self.type_ok(self.types[i], i));
            }
        }
        assert forall|i: int, j: int|
            0 <= i < j < next.types.len() && interned(
                (#[trigger] next.types[i]).kind,
            ) implies next.types[i].kind != (#[trigger] next.types[j]).kind by {
            if j == n && self.types[i].kind == tv.kind {
                assert(self.find_kind(tv.kind) is Some);
            }
        }
    }

    pub proof fn lemma_push_function(self, fv: FunctionView)
        requires
            self.wf(),
            self.function_ok(fv),
            self.functions.len() < usize::MAX,
        ensures
            self.push_function(fv).wf(),
    {
        let next = self.push_function(fv);
        self.lemma_types_kept(next);
        self.lemma_values_kept(next);
        self.lemma_blocks_kept(next);
        reveal(CxView::functions_wf);
        assert forall|i: int| 0 <= i < next.functions.len() implies next.function_ok(
            #[trigger] next.functions[i],
        ) by {
            if i < self.functions.len() {
                assert(self.function_ok(self.functions[i]));
            }
        }
    }

    /// A change to the blocks alone keeps the context well formed if every
    /// block of the result is.
    pub proof fn lemma_blocks_changed(self, next: CxView)
        requires
            self.wf(),
            next == (CxView { blocks: next.blocks, ..self }),
            self.blocks.len() <= next.blocks.len() <= usize::MAX,
            forall|i: int| 0 <= i < next.blocks.len() ==> next.block_ok(#[trigger] next.blocks[i]),
        ensures
            next.wf(),
    {
        self.lemma_types_kept(next);
        self.lemma_functions_kept(next);
        self.lemma_values_kept(next);
        reveal(CxView::blocks_wf);
    }

    /// A change to the cursor and the known function addresses alone keeps
    /// the context well formed if the new ones are valid.
    pub proof fn lemma_cursor_changed(self, next: CxView)
        requires
            self.wf(),
            next == (CxView {
                current_block: next.current_block,
                current_func: next.current_func,
                function_addresses: next.function_addresses,
                ..self
            }),
            next.cursor_wf(),
        ensures
            next.wf(),
    {
        self.lemma_types_kept(next);
        self.lemma_functions_kept(next);
        self.lemma_values_kept(next);
        self.lemma_blocks_kept(next);
    }

    /// Interning adds at most one descriptor, at the end, and the type that
    /// it gives is of the kind asked for.
    pub proof fn lemma_intern(self, kind: TypeKind)
        requires
            self.types.len() < usize::MAX,
        ensures
            ({
                let next = self.intern(kind);
                let t = self.interned_type(kind);
                &&& next == (CxView { types: next.types, ..self })
                &&& self.types.is_prefix_of(next.types)
                &&& next.types.len() <= self.types.len() + 1
                &&& t.id < next.types.len()
                &&& next.types[t.id as int].kind == kind
            }),
    {
    }

    /// What is known of a type stays known as the context grows.
    pub proof fn lemma_grows_keeps_type(self, next: CxView, t: Type)
        requires
            self.wf(),
            self.types.is_prefix_of(next.types),
            self.valid_type(t),
        ensures
            next.valid_type(t),
            next.kind(t) == self.kind(t),
            next.pointee(t) == self.pointee(t),
            next.element(t) == self.element(t),
            next.is_function_ptr(t) == self.is_function_ptr(t),
            next.ptr_params(t) == self.ptr_params(t),
            forall|i: usize| next.field(t, i) == self.field(t, i),
            self.pointee(t) matches Some(p) ==> self.valid_type(p),
            self.element(t) matches Some(e) ==> self.valid_type(e),
    {
        reveal(CxView::types_wf);
        assert(self.type_ok(self.types[t.id as int], t.id as int));
        assert(next.types[t.id as int] == self.types[t.id as int]);
        match self.kind(t) {
            TypeKind::Volatile { inner } => {
                assert(next.types[inner.id as int] == self.types[inner.id as int]);
                assert(self.type_ok(self.types[inner.id as int], inner.id as int));
            },
            _ => {},
        }
    }

    /// A value and its type stay as they are as the context grows.
    pub proof fn lemma_grows_keeps_value(self, next: CxView, v: RValue)
        requires
            self.wf(),
            self.values.is_prefix_of(next.values),
            self.valid_rvalue(v),
        ensures
            next.valid_rvalue(v),
            next.node(v) == self.node(v),
            next.type_of(v) == self.type_of(v),
            self.valid_type(self.type_of(v)),
    {
        reveal(CxView::values_wf);
        assert(self.value_ok(self.values[v.id as int], v.id as int));
        assert(next.values[v.id as int] == self.values[v.id as int]);
    }

    pub proof fn lemma_push_block(self, bv: BlockView)
        requires
            self.wf(),
            self.block_ok(bv),
            self.blocks.len() < usize::MAX,
        ensures
            self.push_block(bv).wf(),
    {
        reveal(CxView::blocks_wf);
        let next = self.push_block(bv);
        assert forall|i: int| 0 <= i < next.blocks.len() implies next.block_ok(
            #[trigger] next.blocks[i],
        ) by {
            if i < self.blocks.len() {
                assert(self.block_ok(self.blocks[i]));
            }
        }
        self.lemma_blocks_changed(next);
    }

    pub proof fn lemma_emit(self, b: Block, s: Statement)
        requires
            self.wf(),
            self.valid_block(b),
            self.statement_ok(s),
        ensures
            self.emit(b, s).wf(),
    {
        reveal(CxView::blocks_wf);
        let next = self.emit(b, s);
        assert forall|i: int| 0 <= i < next.blocks.len() implies next.block_ok(
            #[trigger] next.blocks[i],
        ) by {
            assert(self.block_ok(self.blocks[i]));
            if i == b.id {
                let bv = next.blocks[i];
                assert forall|k: int| 0 <= k < bv.statements.len() implies next.statement_ok(
                    #[trigger] bv.statements[k],
                ) by {
                    if k < self.blocks[i].statements.len() {
                        assert(self.statement_ok(self.blocks[i].statements[k]));
                    }
                }
            }
        }
        self.lemma_blocks_changed(next);
    }

    pub proof fn lemma_terminate(self, b: Block, t: Terminator, cases: Seq<Case>)
        requires
            self.wf(),
            self.valid_block(b),
            self.terminator_ok(t),
            self.cases_ok(cases),
            cases.len() > 0 ==> t is Switch,
        ensures
            self.terminate(b, t, cases).wf(),
    {
        reveal(CxView::blocks_wf);
        let next = self.terminate(b, t, cases);
        assert forall|i: int| 0 <= i < next.blocks.len() implies next.block_ok(
            #[trigger] next.blocks[i],
        ) by {
            assert(self.block_ok(self.blocks[i]));
        }
        self.lemma_blocks_changed(next);
    }
}

} // verus!
