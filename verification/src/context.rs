//! The context: the tables that handles point into, the cursor, and the
//! fresh-name counter. Its methods are the elementary operations on the
//! target IR; each says which elementary change it makes to the model.

use crate::ir::{
    Block, BlockData, Case, Function, FunctionData, FunctionView, LValue, Node, RValue, SlotName,
    Statement, Terminator, Type, TypeData, TypeKind, TypeView, ValueData, ValueView,
};
use crate::kinds::{BinaryOp, Builtin, PtrWidth};
use crate::model::{basic_kind, interned, CxView, BASIC_TYPES};
use vstd::prelude::*;

verus! {

/// The state that lowering works on.
#[derive(Debug)]
pub struct CodegenCx {
    pub ptr_width: PtrWidth,
    pub types: Vec<TypeData>,
    pub values: Vec<ValueData>,
    pub functions: Vec<FunctionData>,
    pub blocks: Vec<BlockData>,
    /// The block that materialised call results go to.
    pub current_block: Option<Block>,
    /// The function that is being populated.
    pub current_func: Option<Function>,
    /// The fresh-name counter: the last number handed out.
    pub return_value_count: usize,
    /// Values known to be addresses of ordinary functions.
    pub normal_function_addresses: Vec<RValue>,
}

impl View for CodegenCx {
    type V = CxView;

    open spec fn view(&self) -> CxView {
        CxView {
            ptr_width: self.ptr_width,
            types: self.types@.map_values(|t: TypeData| t@),
            values: self.values@.map_values(|v: ValueData| v@),
            functions: self.functions@.map_values(|f: FunctionData| f@),
            blocks: self.blocks@.map_values(|b: BlockData| b@),
            current_block: self.current_block,
            current_func: self.current_func,
            fresh: self.return_value_count,
            function_addresses: self.normal_function_addresses@,
        }
    }
}

impl CodegenCx {
    pub open spec fn wf(&self) -> bool {
        self@.wf()
    }

    /// A context that holds the basic types and nothing else.
    pub fn new(ptr_width: PtrWidth) -> (cx: CodegenCx)
        ensures
            cx.wf(),
            cx@.ptr_width == ptr_width,
            cx@.types.len() == BASIC_TYPES,
            cx@.values.len() == 0,
            cx@.functions.len() == 0,
            cx@.blocks.len() == 0,
            cx@.current_block is None,
            cx@.current_func is None,
            cx@.fresh == 0,
            cx@.function_addresses.len() == 0,
    {
        proof {
            reveal(CxView::types_wf);
            reveal(CxView::values_wf);
            reveal(CxView::functions_wf);
            reveal(CxView::blocks_wf);
            reveal(CxView::names_wf);
        }
        let ptr_bits: u8 = match ptr_width {
            PtrWidth::W16 => 16,
            PtrWidth::W32 => 32,
            PtrWidth::W64 => 64,
        };
        let mut types: Vec<TypeData> = Vec::new();
        types.push(TypeData { kind: TypeKind::Void, members: Vec::new() });
        types.push(TypeData { kind: TypeKind::Bool, members: Vec::new() });
        types.push(TypeData { kind: TypeKind::Int { bits: 8, signed: true }, members: Vec::new() });
        types.push(TypeData { kind: TypeKind::Int { bits: 16, signed: true }, members: Vec::new() });
        types.push(TypeData { kind: TypeKind::Int { bits: 32, signed: true }, members: Vec::new() });
        types.push(TypeData { kind: TypeKind::Int { bits: 64, signed: true }, members: Vec::new() });
        types.push(
            TypeData { kind: TypeKind::Int { bits: 128, signed: true }, members: Vec::new() },
        );
        types.push(TypeData { kind: TypeKind::Int { bits: 8, signed: false }, members: Vec::new() });
        types.push(
            TypeData { kind: TypeKind::Int { bits: 16, signed: false }, members: Vec::new() },
        );
        types.push(
            TypeData { kind: TypeKind::Int { bits: 32, signed: false }, members: Vec::new() },
        );
        types.push(
            TypeData { kind: TypeKind::Int { bits: 64, signed: false }, members: Vec::new() },
        );
        types.push(
            TypeData { kind: TypeKind::Int { bits: 128, signed: false }, members: Vec::new() },
        );
        types.push(
            TypeData { kind: TypeKind::Int { bits: ptr_bits, signed: true }, members: Vec::new() },
        );
        types.push(
            TypeData { kind: TypeKind::Int { bits: ptr_bits, signed: false }, members: Vec::new() },
        );
        let cx = CodegenCx {
            ptr_width,
            types,
            values: Vec::new(),
            functions: Vec::new(),
            blocks: Vec::new(),
            current_block: None,
            current_func: None,
            return_value_count: 0,
            normal_function_addresses: Vec::new(),
        };
        proof {
            let v = cx@;
            assert(v.types.len() == 14);
            assert forall|i: int| 0 <= i < BASIC_TYPES implies (#[trigger] v.types[i]).kind
                == basic_kind(i, v.ptr_width) by {
                assert(v.types[i] == cx.types@[i]@);
            }
            assert forall|i: int| 0 <= i < v.types.len() implies v.type_ok(#[trigger] v.types[i], i) by {
                assert(v.types[i] == cx.types@[i]@);
                assert(v.types[i].members.len() == 0);
            }
            assert forall|i: int, j: int|
                0 <= i < j < v.types.len() && interned((#[trigger] v.types[i]).kind) implies v.types[i].kind
                != (#[trigger] v.types[j]).kind by {
                assert(v.types[i].kind == basic_kind(i, v.ptr_width));
            }
        }
        cx
    }

    // ----- reading -----

    pub fn kind(&self, t: Type) -> (r: TypeKind)
        requires
            self@.valid_type(t),
        ensures
            r == self@.kind(t),
    {
        self.types[t.id].kind
    }

    /// The type of a value.
    pub fn val_ty(&self, v: RValue) -> (r: Type)
        requires
            self.wf(),
            self@.valid_rvalue(v),
        ensures
            r == self@.type_of(v),
            self@.valid_type(r),
    {
        proof {
            reveal(CxView::values_wf);
        }
        proof {
            assert(self@.value_ok(self@.values[v.id as int], v.id as int));
        }
        self.values[v.id].ty
    }

    pub fn node(&self, v: RValue) -> (r: Node)
        requires
            self@.valid_rvalue(v),
        ensures
            r == self@.node(v),
    {
        self.values[v.id].node
    }

    pub fn type_void(&self) -> (r: Type)
        requires
            self.wf(),
        ensures
            r.id == 0,
            self@.valid_type(r),
            self@.kind(r) == TypeKind::Void,
    {
        proof {
            reveal(CxView::types_wf);
        }
        proof {
            assert(self@.types[0].kind == basic_kind(0, self@.ptr_width));
        }
        Type { id: 0 }
    }

    pub fn type_bool(&self) -> (r: Type)
        requires
            self.wf(),
        ensures
            r.id == 1,
            self@.valid_type(r),
            self@.kind(r) == TypeKind::Bool,
    {
        proof {
            reveal(CxView::types_wf);
        }
        proof {
            assert(self@.types[1].kind == basic_kind(1, self@.ptr_width));
        }
        Type { id: 1 }
    }

    /// The signed integer type of the given width in bits (8, 16, 32, 64 or
    /// 128).
    pub fn type_int(&self, bits: u8) -> (r: Type)
        requires
            self.wf(),
            bits == 8 || bits == 16 || bits == 32 || bits == 64 || bits == 128,
        ensures
            self@.valid_type(r),
            self@.kind(r) == (TypeKind::Int { bits, signed: true }),
            r.id == (if bits == 8 {
                2int
            } else if bits == 16 {
                3
            } else if bits == 32 {
                4
            } else if bits == 64 {
                5
            } else {
                6
            }),
    {
        proof {
            reveal(CxView::types_wf);
        }
        let id: usize = if bits == 8 {
            2
        } else if bits == 16 {
            3
        } else if bits == 32 {
            4
        } else if bits == 64 {
            5
        } else {
            6
        };
        proof {
            assert(self@.types[id as int].kind == basic_kind(id as int, self@.ptr_width));
        }
        Type { id }
    }

    /// The unsigned integer type of the given width in bits.
    pub fn type_uint(&self, bits: u8) -> (r: Type)
        requires
            self.wf(),
            bits == 8 || bits == 16 || bits == 32 || bits == 64 || bits == 128,
        ensures
            self@.valid_type(r),
            self@.kind(r) == (TypeKind::Int { bits, signed: false }),
            r.id == (if bits == 8 {
                7int
            } else if bits == 16 {
                8
            } else if bits == 32 {
                9
            } else if bits == 64 {
                10
            } else {
                11
            }),
    {
        proof {
            reveal(CxView::types_wf);
        }
        let id: usize = if bits == 8 {
            7
        } else if bits == 16 {
            8
        } else if bits == 32 {
            9
        } else if bits == 64 {
            10
        } else {
            11
        };
        proof {
            assert(self@.types[id as int].kind == basic_kind(id as int, self@.ptr_width));
        }
        Type { id }
    }

    /// The signed pointer-sized integer type.
    pub fn type_isize(&self) -> (r: Type)
        requires
            self.wf(),
        ensures
            r.id == 12,
            self@.valid_type(r),
            self@.is_signed(r),
    {
        proof {
            reveal(CxView::types_wf);
        }
        proof {
            assert(self@.types[12].kind == basic_kind(12, self@.ptr_width));
        }
        Type { id: 12 }
    }

    /// The unsigned pointer-sized integer type.
    pub fn type_usize(&self) -> (r: Type)
        requires
            self.wf(),
        ensures
            r.id == 13,
            self@.valid_type(r),
            self@.is_unsigned(r),
    {
        proof {
            reveal(CxView::types_wf);
        }
        proof {
            assert(self@.types[13].kind == basic_kind(13, self@.ptr_width));
        }
        Type { id: 13 }
    }

    pub fn is_signed(&self, t: Type) -> (r: bool)
        requires
            self@.valid_type(t),
        ensures
            r == self@.is_signed(t),
    {
        match self.types[t.id].kind {
            TypeKind::Int { signed, .. } => signed,
            _ => false,
        }
    }

    pub fn is_unsigned(&self, t: Type) -> (r: bool)
        requires
            self@.valid_type(t),
        ensures
            r == self@.is_unsigned(t),
    {
        match self.types[t.id].kind {
            TypeKind::Int { signed, .. } => !signed,
            _ => false,
        }
    }

    pub fn is_bool(&self, t: Type) -> (r: bool)
        requires
            self@.valid_type(t),
        ensures
            r == (self@.kind(t) is Bool),
    {
        match self.types[t.id].kind {
            TypeKind::Bool => true,
            _ => false,
        }
    }

    pub fn is_i8(&self, t: Type) -> (r: bool)
        requires
            self@.valid_type(t),
        ensures
            r == (self@.kind(t) == TypeKind::Int { bits: 8, signed: true }),
    {
        match self.types[t.id].kind {
            TypeKind::Int { bits, signed } => bits == 8 && signed,
            _ => false,
        }
    }

    /// What a pointer type points to; `None` for a type that is no pointer.
    pub fn pointee(&self, t: Type) -> (r: Option<Type>)
        requires
            self.wf(),
            self@.valid_type(t),
        ensures
            r == self@.pointee(t),
            r matches Some(p) ==> self@.valid_type(p),
    {
        proof {
            reveal(CxView::types_wf);
        }
        proof {
            assert(self@.type_ok(self@.types[t.id as int], t.id as int));
        }
        match self.types[t.id].kind {
            TypeKind::Pointer { pointee } => Some(pointee),
            TypeKind::Volatile { inner } => {
                proof {
                    assert(self@.type_ok(self@.types[inner.id as int], inner.id as int));
                }
                match self.types[inner.id].kind {
                    TypeKind::Pointer { pointee } => Some(pointee),
                    _ => None,
                }
            },
            _ => None,
        }
    }

    pub fn type_is_pointer(&self, t: Type) -> (r: bool)
        requires
            self.wf(),
            self@.valid_type(t),
        ensures
            r == self@.is_pointer(t),
    {
        self.pointee(t).is_some()
    }

    // ----- types -----

    fn intern(&mut self, kind: TypeKind) -> (r: Type)
        requires
            old(self).wf(),
            interned(kind),
            old(self)@.type_ok(TypeView { kind, members: seq![] }, old(self)@.types.len() as int),
        ensures
            final(self).wf(),
            final(self)@ == old(self)@.intern(kind),
            r == old(self)@.interned_type(kind),
            final(self)@.valid_type(r),
            final(self)@.kind(r) == kind,
    {
        let ghost pre = self@;
        let mut i: usize = 0;
        while i < self.types.len()
            invariant
                self@ == pre,
                pre.wf(),
                interned(kind),
                i <= self.types.len(),
                forall|j: int| 0 <= j < i ==> (#[trigger] pre.types[j]).kind != kind,
            decreases self.types.len() - i,
        {
            if self.types[i].kind == kind {
                proof {
                    reveal(CxView::types_wf);
                    assert(pre.types[i as int].kind == kind);
                    let c = pre.find_kind(kind)->0;
                    assert(pre.types[c.id as int].kind == kind);
                    if c.id != i {
                        if (c.id as int) < i {
                            assert(pre.types[c.id as int].kind != pre.types[i as int].kind);
                        } else {
                            assert(pre.types[i as int].kind != pre.types[c.id as int].kind);
                        }
                    }
                }
                return Type { id: i };
            }
            i += 1;
        }
        let id = self.types.len();
        self.types.push(TypeData { kind, members: Vec::new() });
        // The table has grown, so its length before was below the largest.
        let _grown = self.types.len();
        proof {
            assert(pre.find_kind(kind) is None);
            pre.lemma_push_type(TypeView { kind, members: seq![] });
            assert(self@.types =~= pre.types.push(TypeView { kind, members: seq![] }));
            assert(self@ =~= pre.push_type(TypeView { kind, members: seq![] }));
        }
        Type { id }
    }

    /// The type of pointers to `t`. Asking twice gives the same handle.
    pub fn make_pointer(&mut self, t: Type) -> (r: Type)
        requires
            old(self).wf(),
            old(self)@.valid_type(t),
        ensures
            final(self).wf(),
            final(self)@ == old(self)@.with_pointer(t),
            r == old(self)@.pointer_type(t),
            final(self)@.valid_type(r),
            final(self)@.kind(r) == (TypeKind::Pointer { pointee: t }),
    {
        self.intern(TypeKind::Pointer { pointee: t })
    }

    /// The volatile form of `t`; `t` itself where it is volatile already.
    pub fn make_volatile(&mut self, t: Type) -> (r: Type)
        requires
            old(self).wf(),
            old(self)@.valid_type(t),
        ensures
            final(self).wf(),
            final(self)@ == old(self)@.with_volatile(t),
            r == old(self)@.volatile_type(t),
            final(self)@.valid_type(r),
            final(self)@.pointee(r) == old(self)@.pointee(t),
    {
        proof {
            reveal(CxView::types_wf);
        }
        match self.types[t.id].kind {
            TypeKind::Volatile { .. } => t,
            _ => {
                let r = self.intern(TypeKind::Volatile { inner: t });
                proof {
                    assert(old(self)@.type_ok(old(self)@.types[t.id as int], t.id as int));
                }
                r
            },
        }
    }

    /// `t` with the given alignment in bytes.
    pub fn get_aligned(&mut self, t: Type, bytes: u64) -> (r: Type)
        requires
            old(self).wf(),
            old(self)@.valid_type(t),
        ensures
            final(self).wf(),
            final(self)@ == old(self)@.with_aligned(t, bytes),
            r == old(self)@.aligned_type(t, bytes),
            final(self)@.valid_type(r),
            final(self)@.kind(r) == (TypeKind::Aligned { inner: t, bytes }),
    {
        self.intern(TypeKind::Aligned { inner: t, bytes })
    }

    /// A new descriptor of a kind that is not interned: an array, a vector,
    /// a struct with its field types, a function pointer with its parameter
    /// types, or a further scalar.
    pub fn new_type(&mut self, kind: TypeKind, members: Vec<Type>) -> (r: Type)
        requires
            old(self).wf(),
            !interned(kind),
            old(self)@.type_ok(TypeView { kind, members: members@ }, old(self)@.types.len() as int),
        ensures
            final(self).wf(),
            final(self)@ == old(self)@.push_type(TypeView { kind, members: members@ }),
            r == old(self)@.next_type(),
    {
        let ghost pre = self@;
        let ghost tv = TypeView { kind, members: members@ };
        let id = self.types.len();
        self.types.push(TypeData { kind, members });
        // The table has grown, so its length before was below the largest.
        let _grown = self.types.len();
        proof {
            pre.lemma_push_type(tv);
            assert(self@.types =~= pre.types.push(tv));
            assert(self@ =~= pre.push_type(tv));
        }
        Type { id }
    }

    /// Field `field` of a struct type; `None` for another type or a field
    /// that the struct does not have.
    pub fn field_type(&self, t: Type, field: usize) -> (r: Option<Type>)
        requires
            self.wf(),
            self@.valid_type(t),
        ensures
            r == self@.field(t, field),
            r matches Some(f) ==> self@.valid_type(f),
    {
        proof {
            reveal(CxView::types_wf);
        }
        proof {
            assert(self@.type_ok(self@.types[t.id as int], t.id as int));
        }
        match self.types[t.id].kind {
            TypeKind::Struct => {
                if field < self.types[t.id].members.len() {
                    Some(self.types[t.id].members[field])
                } else {
                    None
                }
            },
            _ => None,
        }
    }

    /// The element type of an array, a vector or a pointer.
    pub fn element_type(&self, t: Type) -> (r: Option<Type>)
        requires
            self.wf(),
            self@.valid_type(t),
        ensures
            r == self@.element(t),
            r matches Some(e) ==> self@.valid_type(e),
    {
        proof {
            reveal(CxView::types_wf);
        }
        proof {
            assert(self@.type_ok(self@.types[t.id as int], t.id as int));
        }
        match self.types[t.id].kind {
            TypeKind::Array { elem, .. } => Some(elem),
            TypeKind::Vector { elem, .. } => Some(elem),
            _ => self.pointee(t),
        }
    }

    // ----- functions -----

    /// A new function with the given signature and no blocks.
    pub fn new_function(&mut self, name: &str, return_type: Type, params: Vec<Type>) -> (r:
        Function)
        requires
            old(self).wf(),
            old(self)@.function_ok(
                FunctionView { name: name@, return_type, params: params@ },
            ),
        ensures
            final(self).wf(),
            final(self)@ == old(self)@.push_function(
                FunctionView { name: name@, return_type, params: params@ },
            ),
            r == (Function::Defined { id: old(self)@.functions.len() as usize }),
    {
        let ghost pre = self@;
        let ghost fv = FunctionView { name: name@, return_type, params: params@ };
        let id = self.functions.len();
        self.functions.push(FunctionData { name: name.to_owned(), return_type, params });
        // The table has grown, so its length before was below the largest.
        let _grown = self.functions.len();
        proof {
            pre.lemma_push_function(fv);
            assert(self@.functions =~= pre.functions.push(fv));
            assert(self@ =~= pre.push_function(fv));
        }
        Function::Defined { id }
    }

    pub fn get_return_type(&self, f: Function) -> (r: Type)
        requires
            self.wf(),
            self@.defined(f),
        ensures
            r == self@.return_type(f),
            self@.valid_type(r),
    {
        proof {
            reveal(CxView::functions_wf);
        }
        match f {
            Function::Defined { id } => {
                proof {
                    assert(self@.function_ok(self@.functions[id as int]));
                }
                self.functions[id].return_type
            },
            Function::Builtin { .. } => Type { id: 0 },
        }
    }

    pub fn get_param_count(&self, f: Function) -> (r: usize)
        requires
            self@.defined(f),
        ensures
            r == self@.functions[f->id as int].params.len(),
    {
        match f {
            Function::Defined { id } => self.functions[id].params.len(),
            Function::Builtin { .. } => 0,
        }
    }

    pub fn get_param_type(&self, f: Function, index: usize) -> (r: Type)
        requires
            self.wf(),
            self@.defined(f),
            index < self@.functions[f->id as int].params.len(),
        ensures
            r == self@.functions[f->id as int].params[index as int],
            self@.valid_type(r),
    {
        proof {
            reveal(CxView::functions_wf);
        }
        match f {
            Function::Defined { id } => {
                proof {
                    assert(self@.function_ok(self@.functions[id as int]));
                }
                self.functions[id].params[index]
            },
            Function::Builtin { .. } => Type { id: 0 },
        }
    }

    // ----- values -----

    /// A new node of the value graph.
    pub fn new_value(&mut self, node: Node, ty: Type, args: Vec<RValue>) -> (r: RValue)
        requires
            old(self).wf(),
            old(self)@.value_ok(
                ValueView { node, ty, args: args@ },
                old(self)@.values.len() as int,
            ),
            !(node matches Node::Local { name, .. } && name.serial() is Some),
        ensures
            final(self).wf(),
            final(self)@ == old(self)@.push_value(ValueView { node, ty, args: args@ }),
            r == old(self)@.next_value(),
    {
        let ghost pre = self@;
        let ghost vv = ValueView { node, ty, args: args@ };
        let id = self.values.len();
        self.values.push(ValueData { node, ty, args });
        // The table has grown, so its length before was below the largest.
        let _grown = self.values.len();
        proof {
            pre.lemma_push_value(vv);
            assert(self@.values =~= pre.values.push(vv));
            assert(self@ =~= pre.push_value(vv));
        }
        RValue { id }
    }

    /// A new node without arguments.
    pub fn new_node(&mut self, node: Node, ty: Type) -> (r: RValue)
        requires
            old(self).wf(),
            old(self)@.value_ok(
                ValueView { node, ty, args: seq![] },
                old(self)@.values.len() as int,
            ),
            !(node matches Node::Local { name, .. } && name.serial() is Some),
        ensures
            final(self).wf(),
            final(self)@ == old(self)@.with_node(node, ty),
            r == old(self)@.next_value(),
    {
        self.new_value(node, ty, Vec::new())
    }

    /// A new slot of a function, under a name without a number.
    pub fn new_local(&mut self, func: Function, ty: Type, name: SlotName) -> (r: LValue)
        requires
            old(self).wf(),
            old(self)@.defined(func),
            old(self)@.valid_type(ty),
            name.serial() is None,
        ensures
            final(self).wf(),
            final(self)@ == old(self)@.with_local(func->id, ty, name),
            r == old(self)@.next_place(),
            final(self)@.valid_lvalue(r),
    {
        match func {
            Function::Defined { id } => {
                let v = self.new_node(Node::Local { func: id, name }, ty);
                proof {
                    assert(self@.values[v.id as int].node == (Node::Local { func: id, name }));
                }
                LValue { id: v.id }
            },
            Function::Builtin { .. } => LValue { id: 0 },
        }
    }

    /// A new slot of a function under the next number of the fresh-name
    /// counter: a loaded value, or else a returned one.
    pub fn new_fresh_local(&mut self, func: Function, ty: Type, loaded: bool) -> (r: LValue)
        requires
            old(self).wf(),
            old(self)@.defined(func),
            old(self)@.valid_type(ty),
        ensures
            final(self).wf(),
            final(self)@ == old(self)@.with_fresh_local(func->id, ty, loaded),
            r == old(self)@.next_place(),
            final(self)@.valid_lvalue(r),
            final(self)@.fresh == old(self)@.fresh + 1,
    {
        proof {
            reveal(CxView::values_wf);
            reveal(CxView::names_wf);
        }
        let ghost pre = self@;
        let fid = match func {
            Function::Defined { id } => id,
            Function::Builtin { .. } => 0,
        };
        // The slot is made under a provisional name: its number can be
        // computed only once the table is known to have had room for it.
        let id = self.values.len();
        self.values.push(
            ValueData {
                node: Node::Local { func: fid, name: SlotName::Undefined },
                ty,
                args: Vec::new(),
            },
        );
        // The table has grown, so its length before was below the largest.
        let _grown = self.values.len();
        assert(pre.values.len() < usize::MAX);
        let serial = self.return_value_count + 1;
        let name = if loaded {
            SlotName::LoadedValue { serial }
        } else {
            SlotName::ReturnValue { serial }
        };
        self.values[id].node = Node::Local { func: fid, name };
        self.return_value_count = serial;
        proof {
            pre.lemma_fresh_local(fid, ty, loaded);
            let vv = ValueView { node: Node::Local { func: fid, name }, ty, args: seq![] };
            assert(self@.values =~= pre.values.push(vv));
            assert(self@ =~= pre.with_fresh_local(fid, ty, loaded));
        }
        LValue { id }
    }

    // ----- blocks -----

    /// A new, empty, open block of a function.
    pub fn new_block(&mut self, func: Function, name: &str) -> (r: Block)
        requires
            old(self).wf(),
            old(self)@.defined(func),
        ensures
            final(self).wf(),
            final(self)@ == old(self)@.with_block(func->id, name@),
            r == old(self)@.next_block(),
            final(self)@.open_block(r),
    {
        let ghost pre = self@;
        let fid = match func {
            Function::Defined { id } => id,
            Function::Builtin { .. } => 0,
        };
        let id = self.blocks.len();
        self.blocks.push(
            BlockData {
                func: fid,
                name: name.to_owned(),
                statements: Vec::new(),
                terminator: None,
                cases: Vec::new(),
            },
        );
        // The table has grown, so its length before was below the largest.
        let _grown = self.blocks.len();
        proof {
            let bv = crate::ir::BlockView {
                func: fid,
                name: name@,
                statements: seq![],
                terminator: None,
                cases: seq![],
            };
            pre.lemma_push_block(bv);
            assert(self@.blocks =~= pre.blocks.push(bv));
            assert(self@ =~= pre.with_block(fid, name@));
        }
        Block { id }
    }

    /// The function that owns a block.
    pub fn get_function(&self, block: Block) -> (r: Function)
        requires
            self.wf(),
            self@.valid_block(block),
        ensures
            r == self@.owner(block),
            self@.defined(r),
    {
        proof {
            reveal(CxView::blocks_wf);
        }
        proof {
            assert(self@.block_ok(self@.blocks[block.id as int]));
        }
        Function::Defined { id: self.blocks[block.id].func }
    }

    /// Whether a block has its terminator.
    pub fn is_terminated(&self, block: Block) -> (r: bool)
        requires
            self@.valid_block(block),
        ensures
            r == !self@.open_block(block),
    {
        self.blocks[block.id].terminator.is_some()
    }

    /// Appends a statement to an open block.
    pub fn add_statement(&mut self, block: Block, s: Statement)
        requires
            old(self).wf(),
            old(self)@.open_block(block),
            old(self)@.statement_ok(s),
        ensures
            final(self).wf(),
            final(self)@ == old(self)@.emit(block, s),
    {
        let ghost pre = self@;
        self.blocks[block.id].statements.push(s);
        proof {
            pre.lemma_emit(block, s);
            assert(self@.blocks =~= pre.emit(block, s).blocks);
            assert(self@ =~= pre.emit(block, s));
        }
    }

    /// Appends the evaluation of a value for its effects.
    pub fn add_eval(&mut self, block: Block, value: RValue)
        requires
            old(self).wf(),
            old(self)@.open_block(block),
            old(self)@.valid_rvalue(value),
        ensures
            final(self).wf(),
            final(self)@ == old(self)@.emit(block, Statement::Eval { value }),
    {
        self.add_statement(block, Statement::Eval { value });
    }

    /// Appends the assignment of a value to a location.
    pub fn add_assignment(&mut self, block: Block, place: LValue, value: RValue)
        requires
            old(self).wf(),
            old(self)@.open_block(block),
            old(self)@.valid_lvalue(place),
            old(self)@.valid_rvalue(value),
        ensures
            final(self).wf(),
            final(self)@ == old(self)@.emit(block, Statement::Assign { place, value }),
    {
        self.add_statement(block, Statement::Assign { place, value });
    }

    /// Appends the update of a location by an operator and a value.
    pub fn add_assignment_op(&mut self, block: Block, place: LValue, op: BinaryOp, value: RValue)
        requires
            old(self).wf(),
            old(self)@.open_block(block),
            old(self)@.valid_lvalue(place),
            old(self)@.valid_rvalue(value),
        ensures
            final(self).wf(),
            final(self)@ == old(self)@.emit(block, Statement::AssignOp { place, op, value }),
    {
        self.add_statement(block, Statement::AssignOp { place, op, value });
    }

    /// Closes an open block with a terminator and, for a switch, its cases.
    pub fn end_block(&mut self, block: Block, t: Terminator, cases: Vec<Case>)
        requires
            old(self).wf(),
            old(self)@.open_block(block),
            old(self)@.terminator_ok(t),
            old(self)@.cases_ok(cases@),
            cases@.len() > 0 ==> t is Switch,
        ensures
            final(self).wf(),
            final(self)@ == old(self)@.terminate(block, t, cases@),
    {
        let ghost pre = self@;
        self.blocks[block.id].terminator = Some(t);
        self.blocks[block.id].cases = cases;
        proof {
            pre.lemma_terminate(block, t, cases@);
            assert(self@.blocks =~= pre.terminate(block, t, cases@).blocks);
            assert(self@ =~= pre.terminate(block, t, cases@));
        }
    }

    pub fn end_with_void_return(&mut self, block: Block)
        requires
            old(self).wf(),
            old(self)@.open_block(block),
        ensures
            final(self).wf(),
            final(self)@ == old(self)@.terminate(block, Terminator::VoidReturn, seq![]),
    {
        self.end_block(block, Terminator::VoidReturn, Vec::new());
    }

    pub fn end_with_return(&mut self, block: Block, value: RValue)
        requires
            old(self).wf(),
            old(self)@.open_block(block),
            old(self)@.valid_rvalue(value),
        ensures
            final(self).wf(),
            final(self)@ == old(self)@.terminate(block, Terminator::Return { value }, seq![]),
    {
        self.end_block(block, Terminator::Return { value }, Vec::new());
    }

    pub fn end_with_jump(&mut self, block: Block, target: Block)
        requires
            old(self).wf(),
            old(self)@.open_block(block),
            old(self)@.valid_block(target),
        ensures
            final(self).wf(),
            final(self)@ == old(self)@.terminate(block, Terminator::Jump { target }, seq![]),
    {
        self.end_block(block, Terminator::Jump { target }, Vec::new());
    }

    pub fn end_with_conditional(
        &mut self,
        block: Block,
        cond: RValue,
        on_true: Block,
        on_false: Block,
    )
        requires
            old(self).wf(),
            old(self)@.open_block(block),
            old(self)@.valid_rvalue(cond),
            old(self)@.valid_block(on_true),
            old(self)@.valid_block(on_false),
        ensures
            final(self).wf(),
            final(self)@ == old(self)@.terminate(
                block,
                Terminator::Conditional { cond, on_true, on_false },
                seq![],
            ),
    {
        self.end_block(block, Terminator::Conditional { cond, on_true, on_false }, Vec::new());
    }

    pub fn end_with_switch(&mut self, block: Block, value: RValue, default: Block, cases: Vec<Case>)
        requires
            old(self).wf(),
            old(self)@.open_block(block),
            old(self)@.valid_rvalue(value),
            old(self)@.valid_block(default),
            old(self)@.cases_ok(cases@),
        ensures
            final(self).wf(),
            final(self)@ == old(self)@.terminate(
                block,
                Terminator::Switch { value, default },
                cases@,
            ),
    {
        self.end_block(block, Terminator::Switch { value, default }, cases);
    }

    // ----- cursor -----

    /// Moves the context's cursor to a block.
    pub fn set_current_block(&mut self, block: Block)
        requires
            old(self).wf(),
            old(self)@.valid_block(block),
        ensures
            final(self).wf(),
            final(self)@ == old(self)@.position(block),
    {
        self.current_block = Some(block);
        proof {
            assert(self@ =~= old(self)@.position(block));
            old(self)@.lemma_cursor_changed(self@);
        }
    }

    /// Sets the function that is being populated.
    pub fn set_current_func(&mut self, func: Function)
        requires
            old(self).wf(),
            old(self)@.defined(func),
        ensures
            final(self).wf(),
            final(self)@ == old(self)@.enter(func),
    {
        self.current_func = Some(func);
        proof {
            assert(self@ =~= old(self)@.enter(func));
            old(self)@.lemma_cursor_changed(self@);
        }
    }

    /// Records a value as the address of an ordinary function.
    pub fn note_function_address(&mut self, v: RValue)
        requires
            old(self).wf(),
            old(self)@.valid_rvalue(v),
        ensures
            final(self).wf(),
            final(self)@ == old(self)@.note_address(v),
    {
        let ghost pre = self@;
        let mut i: usize = 0;
        while i < self.normal_function_addresses.len()
            invariant
                self@ == pre,
                pre.wf(),
                i <= self.normal_function_addresses.len(),
                forall|j: int| 0 <= j < i ==> pre.function_addresses[j] != v,
            decreases self.normal_function_addresses.len() - i,
        {
            if self.normal_function_addresses[i] == v {
                proof {
                    assert(pre.function_addresses[i as int] == v);
                }
                return ;
            }
            i += 1;
        }
        self.normal_function_addresses.push(v);
        proof {
            assert(!pre.function_addresses.contains(v));
            assert(self@ =~= pre.note_address(v));
            assert(self@.function_addresses.no_duplicates());
            pre.lemma_cursor_changed(self@);
        }
    }

    /// The first block of a function that still lacks its terminator;
    /// `None` exactly if the function is complete.
    pub fn first_open_block(&self, func: Function) -> (r: Option<Block>)
        requires
            self.wf(),
            self@.defined(func),
        ensures
            r is None <==> self@.complete(func),
            r matches Some(b) ==> {
                &&& self@.open_block(b)
                &&& self@.owner(b) == func
                &&& forall|i: int|
                    0 <= i < b.id && (#[trigger] self@.blocks[i]).func == func->id
                        ==> self@.blocks[i].terminator is Some
            },
    {
        let fid = match func {
            Function::Defined { id } => id,
            Function::Builtin { .. } => 0,
        };
        let mut i: usize = 0;
        while i < self.blocks.len()
            invariant
                i <= self.blocks.len(),
                func == (Function::Defined { id: fid }),
                forall|k: int|
                    0 <= k < i && (#[trigger] self@.blocks[k]).func == fid
                        ==> self@.blocks[k].terminator is Some,
            decreases self.blocks.len() - i,
        {
            if self.blocks[i].func == fid && self.blocks[i].terminator.is_none() {
                proof {
                    assert(self@.blocks[i as int].func == fid);
                    assert(self@.blocks[i as int].terminator is None);
                }
                return Some(Block { id: i });
            }
            i += 1;
        }
        None
    }
}

} // verus!
