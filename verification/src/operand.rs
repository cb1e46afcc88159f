//! Moving operands between memory and values: the load of an operand from
//! a place, the store of an operand to a place, and the store of one
//! operand to every element of an array.

use crate::builder::Builder;
use crate::context::CodegenCx;
use crate::ir::{Block, Node, RValue, SlotName, Type};
use crate::kinds::{Builtin, LowerError};
use crate::layout::{Abi, Layout, OperandRef, OperandValue, PlaceRef};
use crate::model::CxView;
use vstd::prelude::*;

verus! {

impl Builder {
    /// The last node of a context.
    pub open spec fn last(cx: CxView) -> RValue {
        RValue { id: (cx.values.len() - 1) as usize }
    }

    /// The load of a scalar through a pointer; a boolean is then converted
    /// to the boolean type.
    pub open spec fn spec_load_scalar(cx: CxView, at: Block, ptr: RValue, is_bool: bool) -> CxView {
        let c1 = Builder::spec_load(cx, at, ptr);
        if is_bool {
            c1.with_node(Node::Cast { value: Builder::last(c1) }, Type { id: 1 })
        } else {
            c1
        }
    }

    fn load_scalar(&mut self, cx: &mut CodegenCx, ptr: RValue, align: u64, is_bool: bool) -> (r:
        RValue)
        requires
            old(cx).wf(),
            old(self).ready(old(cx)@),
            old(cx)@.valid_rvalue(ptr),
            old(cx)@.is_pointer(old(cx)@.type_of(ptr)),
        ensures
            final(cx).wf(),
            final(cx)@ == Builder::spec_load_scalar(old(cx)@, old(self).at(), ptr, is_bool),
            r == Builder::last(final(cx)@),
            final(cx)@.valid_rvalue(r),
            *final(self) == *old(self),
            final(self).ready(final(cx)@),
            old(cx)@.grows_to(final(cx)@),
    {
        let load = self.load(cx, ptr, align);
        if is_bool {
            let i1 = cx.type_bool();
            self.trunc(cx, load, i1)
        } else {
            load
        }
    }

    /// The load of member `idx` of what `ptr` points to: the member's
    /// address, then the load of a scalar through it.
    pub open spec fn spec_load_member(
        cx: CxView,
        at: Block,
        ptr: RValue,
        idx: u64,
        is_bool: bool,
    ) -> CxView {
        let c1 = Builder::spec_struct_gep(cx, ptr, idx)->Ok_0;
        Builder::spec_load_scalar(c1, at, Builder::last(c1), is_bool)
    }

    fn load_member(
        &mut self,
        cx: &mut CodegenCx,
        ptr: RValue,
        idx: u64,
        align: u64,
        is_bool: bool,
    ) -> (r: RValue)
        requires
            old(cx).wf(),
            old(self).ready(old(cx)@),
            old(cx)@.valid_rvalue(ptr),
            Builder::struct_gep_error(old(cx)@, ptr, idx) is None,
        ensures
            final(cx).wf(),
            final(cx)@ == Builder::spec_load_member(old(cx)@, old(self).at(), ptr, idx, is_bool),
            r == Builder::last(final(cx)@),
            final(cx)@.valid_rvalue(r),
            *final(self) == *old(self),
            final(self).ready(final(cx)@),
            old(cx)@.grows_to(final(cx)@),
    {
        match self.struct_gep(cx, ptr, idx) {
            Ok(llptr) => self.load_scalar(cx, llptr, align, is_bool),
            Err(_) => ptr,
        }
    }

    /// The loads of the two members of a pair.
    pub open spec fn spec_load_pair(
        cx: CxView,
        at: Block,
        ptr: RValue,
        a_bool: bool,
        b_bool: bool,
    ) -> CxView {
        Builder::spec_load_member(
            Builder::spec_load_member(cx, at, ptr, 0, a_bool),
            at,
            ptr,
            1,
            b_bool,
        )
    }

    fn load_pair(
        &mut self,
        cx: &mut CodegenCx,
        ptr: RValue,
        align: u64,
        a_bool: bool,
        b_bool: bool,
    ) -> (r: (RValue, RValue))
        requires
            old(cx).wf(),
            old(self).ready(old(cx)@),
            old(cx)@.valid_rvalue(ptr),
            Builder::struct_gep_error(old(cx)@, ptr, 0) is None,
            Builder::struct_gep_error(old(cx)@, ptr, 1) is None,
        ensures
            final(cx).wf(),
            final(cx)@ == Builder::spec_load_pair(old(cx)@, old(self).at(), ptr, a_bool, b_bool),
            r.0 == Builder::last(Builder::spec_load_member(old(cx)@, old(self).at(), ptr, 0, a_bool)),
            r.1 == Builder::last(final(cx)@),
            *final(self) == *old(self),
            final(self).ready(final(cx)@),
            old(cx)@.grows_to(final(cx)@),
    {
        let ghost pre = cx@;
        let first = self.load_member(cx, ptr, 0, align, a_bool);
        proof {
            Builder::lemma_struct_gep_error_stable(pre, cx@, ptr, 1);
            pre.lemma_grows_keeps_value(cx@, ptr);
        }
        let second = self.load_member(cx, ptr, 1, align, b_bool);
        (first, second)
    }

    /// Why an operand cannot be loaded from a place, if it cannot: a
    /// scalar's place is no pointer, or a member of a pair cannot be
    /// reached.
    pub open spec fn load_operand_error(cx: CxView, place: PlaceRef) -> Option<LowerError> {
        if place.layout.spec_is_zst() || place.llextra is Some {
            None
        } else if place.layout.spec_is_gcc_immediate() {
            if cx.is_pointer(cx.type_of(place.llval)) {
                None
            } else {
                Some(LowerError::UnexpectedType)
            }
        } else if place.layout.abi is ScalarPair {
            match Builder::struct_gep_error(cx, place.llval, 0) {
                Some(e) => Some(e),
                None => Builder::struct_gep_error(cx, place.llval, 1),
            }
        } else {
            None
        }
    }

    /// What the load of an operand emits: for a type without size, a slot
    /// named `undefined`; for an unsized place, nothing; for a scalar, its
    /// load; for a pair of scalars, the loads of the two members; for
    /// anything else, nothing.
    pub open spec fn spec_load_operand(cx: CxView, at: Block, place: PlaceRef) -> CxView {
        if place.layout.spec_is_zst() {
            cx.with_local(cx.owner(at)->id, place.layout.ty, SlotName::Undefined)
        } else if place.llextra is Some {
            cx
        } else if place.layout.spec_is_gcc_immediate() {
            Builder::spec_load_scalar(cx, at, place.llval, place.layout.spec_is_bool())
        } else {
            match place.layout.abi {
                Abi::ScalarPair { a, b } => Builder::spec_load_pair(
                    cx,
                    at,
                    place.llval,
                    a.spec_is_bool(),
                    b.spec_is_bool(),
                ),
                _ => cx,
            }
        }
    }

    /// The operand that a load gives: the loaded value or values, or the
    /// place itself where the value stays in memory.
    pub open spec fn loaded_operand(cx: CxView, at: Block, place: PlaceRef) -> OperandValue {
        if place.layout.spec_is_zst() {
            OperandValue::Immediate { value: cx.next_value() }
        } else if place.llextra is Some {
            OperandValue::Ref { ptr: place.llval, extra: place.llextra, align: place.align }
        } else if place.layout.spec_is_gcc_immediate() {
            OperandValue::Immediate {
                value: Builder::last(Builder::spec_load_operand(cx, at, place)),
            }
        } else {
            match place.layout.abi {
                Abi::ScalarPair { a, b } => OperandValue::Pair {
                    a: Builder::last(
                        Builder::spec_load_member(cx, at, place.llval, 0, a.spec_is_bool()),
                    ),
                    b: Builder::last(Builder::spec_load_operand(cx, at, place)),
                },
                _ => OperandValue::Ref { ptr: place.llval, extra: None, align: place.align },
            }
        }
    }

    /// Loads an operand from a place. A place is unsized exactly if it
    /// carries what completes its pointer. An error leaves everything
    /// unchanged.
    pub fn load_operand(&mut self, cx: &mut CodegenCx, place: PlaceRef) -> (r: Result<
        OperandRef,
        LowerError,
    >)
        requires
            old(cx).wf(),
            old(self).ready(old(cx)@),
            old(cx)@.valid_rvalue(place.llval),
            old(cx)@.valid_type(place.layout.ty),
            place.llextra is Some <==> place.layout.spec_is_unsized(),
        ensures
            final(cx).wf(),
            match Builder::load_operand_error(old(cx)@, place) {
                Some(e) => final(cx)@ == old(cx)@ && r == Err::<OperandRef, LowerError>(e),
                None => {
                    &&& final(cx)@ == Builder::spec_load_operand(old(cx)@, old(self).at(), place)
                    &&& r == Ok::<OperandRef, LowerError>(
                        OperandRef {
                            val: Builder::loaded_operand(old(cx)@, old(self).at(), place),
                            layout: place.layout,
                        },
                    )
                },
            },
            *final(self) == *old(self),
            final(self).ready(final(cx)@),
            old(cx)@.grows_to(final(cx)@),
    {
        let ghost pre = cx@;
        if place.layout.is_zst() {
            let func = self.current_func(cx);
            let undefined = cx.new_local(func, place.layout.ty, SlotName::Undefined);
            return Ok(
                OperandRef {
                    val: OperandValue::Immediate { value: undefined.to_rvalue() },
                    layout: place.layout,
                },
            );
        }
        let val = if let Some(llextra) = place.llextra {
            OperandValue::Ref { ptr: place.llval, extra: Some(llextra), align: place.align }
        } else if place.layout.is_gcc_immediate() {
            let ty = cx.val_ty(place.llval);
            if !cx.type_is_pointer(ty) {
                return Err(LowerError::UnexpectedType);
            }
            let llval = self.load_scalar(cx, place.llval, place.align, place.layout.is_bool());
            OperandValue::Immediate { value: llval }
        } else if let Abi::ScalarPair { a, b } = place.layout.abi {
            match Builder::check_struct_gep(cx, place.llval, 0) {
                Some(e) => {
                    return Err(e);
                },
                None => {},
            }
            match Builder::check_struct_gep(cx, place.llval, 1) {
                Some(e) => {
                    return Err(e);
                },
                None => {},
            }
            let (first, second) = self.load_pair(
                cx,
                place.llval,
                place.align,
                a.is_bool(),
                b.is_bool(),
            );
            OperandValue::Pair { a: first, b: second }
        } else {
            OperandValue::Ref { ptr: place.llval, extra: None, align: place.align }
        };
        Ok(OperandRef { val, layout: place.layout })
    }

    /// Decides whether a member of what a pointer points to can be reached.
    pub fn check_struct_gep(cx: &CodegenCx, ptr: RValue, idx: u64) -> (r: Option<LowerError>)
        requires
            cx.wf(),
            cx@.valid_rvalue(ptr),
        ensures
            r == Builder::struct_gep_error(cx@, ptr, idx),
    {
        if idx > usize::MAX as u64 {
            return Some(LowerError::BadIndex);
        }
        let ty = cx.val_ty(ptr);
        match cx.pointee(ty) {
            Some(t) => Builder::check_member(cx, t, idx),
            None => Some(LowerError::UnexpectedType),
        }
    }

    /// Whether a member can be reached does not change as the context
    /// grows.
    pub proof fn lemma_struct_gep_error_stable(pre: CxView, next: CxView, ptr: RValue, idx: u64)
        requires
            pre.wf(),
            pre.grows_to(next),
            pre.valid_rvalue(ptr),
        ensures
            Builder::struct_gep_error(next, ptr, idx) == Builder::struct_gep_error(pre, ptr, idx),
    {
        pre.lemma_grows_keeps_value(next, ptr);
        let t = pre.type_of(ptr);
        pre.lemma_grows_keeps_type(next, t);
        match pre.pointee(t) {
            Some(p) => {
                pre.lemma_grows_keeps_type(next, p);
            },
            None => {},
        }
    }

    // ----- storing an operand -----

    /// Why the two members of a pair cannot both be reached in an aggregate
    /// of type `pointee`, if they cannot.
    pub open spec fn pair_error(cx: CxView, pointee: Option<Type>) -> Option<LowerError> {
        match pointee {
            None => Some(LowerError::UnexpectedType),
            Some(t) => match Builder::member_error(cx, t, 0) {
                Some(e) => Some(e),
                None => Builder::member_error(cx, t, 1),
            },
        }
    }

    /// Why an operand cannot be stored to a place of the given layout
    /// behind a pointer to `pointee`, if it cannot: the operand is unsized,
    /// or it is a pair and the place is not one of which both members can
    /// be reached. Nothing stands in the way of a store to a place without
    /// size.
    pub open spec fn store_error_at(
        cx: CxView,
        val: OperandValue,
        layout: Layout,
        pointee: Option<Type>,
    ) -> Option<LowerError> {
        if layout.spec_is_zst() {
            None
        } else {
            match val {
                OperandValue::Ref { extra, .. } => if extra is Some {
                    Some(LowerError::Unsupported)
                } else {
                    None
                },
                OperandValue::Immediate { .. } => None,
                OperandValue::Pair { .. } => if layout.abi is ScalarPair {
                    Builder::pair_error(cx, pointee)
                } else {
                    Some(LowerError::UnexpectedType)
                },
            }
        }
    }

    /// Why an operand cannot be stored to a place, if it cannot.
    pub open spec fn store_operand_error(cx: CxView, val: OperandValue, dest: PlaceRef) -> Option<
        LowerError,
    > {
        Builder::store_error_at(cx, val, dest.layout, cx.pointee(cx.type_of(dest.llval)))
    }

    /// Whether the values of an operand exist.
    pub open spec fn valid_operand(cx: CxView, val: OperandValue) -> bool {
        match val {
            OperandValue::Ref { ptr, .. } => cx.valid_rvalue(ptr),
            OperandValue::Immediate { value } => cx.valid_rvalue(value),
            OperandValue::Pair { a, b } => cx.valid_rvalue(a) && cx.valid_rvalue(b),
        }
    }

    /// The store of a value to member `idx` of what `ptr` points to: the
    /// member's address, then the store through it.
    pub open spec fn spec_store_member(
        cx: CxView,
        at: Block,
        ptr: RValue,
        idx: u64,
        val: RValue,
    ) -> CxView {
        let c1 = Builder::spec_struct_gep(cx, ptr, idx)->Ok_0;
        Builder::spec_store(c1, at, val, Builder::last(c1))
    }

    fn store_member(&mut self, cx: &mut CodegenCx, ptr: RValue, idx: u64, val: RValue, align: u64)
        requires
            old(cx).wf(),
            old(self).ready(old(cx)@),
            old(cx)@.valid_rvalue(ptr),
            old(cx)@.valid_rvalue(val),
            Builder::struct_gep_error(old(cx)@, ptr, idx) is None,
        ensures
            final(cx).wf(),
            final(cx)@ == Builder::spec_store_member(old(cx)@, old(self).at(), ptr, idx, val),
            *final(self) == *old(self),
            final(self).ready(final(cx)@),
            old(cx)@.same_blocks_except(final(cx)@, old(self).at()),
            old(cx)@.grows_to(final(cx)@),
    {
        match self.struct_gep(cx, ptr, idx) {
            Ok(llptr) => {
                self.store(cx, val, llptr, align);
            },
            Err(_) => {},
        }
    }

    /// The stores of the two values of a pair to the two members of what
    /// `ptr` points to.
    pub open spec fn spec_store_pair(
        cx: CxView,
        at: Block,
        ptr: RValue,
        a: RValue,
        b: RValue,
    ) -> CxView {
        Builder::spec_store_member(Builder::spec_store_member(cx, at, ptr, 0, a), at, ptr, 1, b)
    }

    fn store_pair(&mut self, cx: &mut CodegenCx, ptr: RValue, a: RValue, b: RValue, align: u64)
        requires
            old(cx).wf(),
            old(self).ready(old(cx)@),
            old(cx)@.valid_rvalue(ptr),
            old(cx)@.valid_rvalue(a),
            old(cx)@.valid_rvalue(b),
            Builder::struct_gep_error(old(cx)@, ptr, 0) is None,
            Builder::struct_gep_error(old(cx)@, ptr, 1) is None,
        ensures
            final(cx).wf(),
            final(cx)@ == Builder::spec_store_pair(old(cx)@, old(self).at(), ptr, a, b),
            *final(self) == *old(self),
            final(self).ready(final(cx)@),
            old(cx)@.same_blocks_except(final(cx)@, old(self).at()),
            old(cx)@.grows_to(final(cx)@),
    {
        let ghost pre = cx@;
        self.store_member(cx, ptr, 0, a, align);
        proof {
            Builder::lemma_struct_gep_error_stable(pre, cx@, ptr, 1);
        }
        self.store_member(cx, ptr, 1, b, align);
    }

    /// The copy of an operand that stays in memory: the size as a constant,
    /// then the copy from the operand to the place.
    pub open spec fn spec_store_ref(cx: CxView, at: Block, src: RValue, dest: PlaceRef) -> CxView {
        if dest.layout.size == 0 {
            cx
        } else {
            Builder::spec_copy(
                cx.with_node(Node::UintBig { value: dest.layout.size as u128 }, Type { id: 13 }),
                at,
                Builtin::Memcpy,
                dest.llval,
                src,
                cx.next_value(),
            )
        }
    }

    fn store_ref(&mut self, cx: &mut CodegenCx, src: RValue, dest: PlaceRef)
        requires
            old(cx).wf(),
            old(self).ready(old(cx)@),
            old(cx)@.valid_rvalue(src),
            old(cx)@.valid_rvalue(dest.llval),
        ensures
            final(cx).wf(),
            final(cx)@ == Builder::spec_store_ref(old(cx)@, old(self).at(), src, dest),
            *final(self) == *old(self),
            final(self).ready(final(cx)@),
            old(cx)@.same_blocks_except(final(cx)@, old(self).at()),
            old(cx)@.grows_to(final(cx)@),
    {
        if dest.layout.size == 0 {
            return ;
        }
        let size = cx.const_usize(dest.layout.size);
        self.copy_call(cx, Builtin::Memcpy, dest.llval, src, size);
    }

    /// What the store of an operand emits: nothing to a place without size;
    /// for an operand in memory, a copy; for one value, its store; for a
    /// pair, the stores of the two to the two members of the place.
    #[verifier::opaque]
    pub open spec fn spec_store_operand(
        cx: CxView,
        at: Block,
        val: OperandValue,
        dest: PlaceRef,
    ) -> CxView {
        if dest.layout.spec_is_zst() {
            cx
        } else {
            match val {
                OperandValue::Ref { ptr, .. } => Builder::spec_store_ref(cx, at, ptr, dest),
                OperandValue::Immediate { value } => Builder::spec_store(cx, at, value, dest.llval),
                OperandValue::Pair { a, b } => Builder::spec_store_pair(cx, at, dest.llval, a, b),
            }
        }
    }

    /// Stores an operand to a place. An error leaves everything unchanged.
    pub fn store_operand(&mut self, cx: &mut CodegenCx, val: OperandValue, dest: PlaceRef) -> (r:
        Result<(), LowerError>)
        requires
            old(cx).wf(),
            old(self).ready(old(cx)@),
            Builder::valid_operand(old(cx)@, val),
            old(cx)@.valid_rvalue(dest.llval),
        ensures
            final(cx).wf(),
            match Builder::store_operand_error(old(cx)@, val, dest) {
                Some(e) => final(cx)@ == old(cx)@ && r == Err::<(), LowerError>(e),
                None => final(cx)@ == Builder::spec_store_operand(
                    old(cx)@,
                    old(self).at(),
                    val,
                    dest,
                ) && r is Ok,
            },
            *final(self) == *old(self),
            final(self).ready(final(cx)@),
            old(cx)@.same_blocks_except(final(cx)@, old(self).at()),
            old(cx)@.grows_to(final(cx)@),
    {
        proof {
            reveal(Builder::spec_store_operand);
        }
        if dest.layout.is_zst() {
            return Ok(());
        }
        match val {
            OperandValue::Ref { ptr, extra, align } => {
                if extra.is_some() {
                    return Err(LowerError::Unsupported);
                }
                self.store_ref(cx, ptr, dest);
            },
            OperandValue::Immediate { value } => {
                self.store(cx, value, dest.llval, dest.align);
            },
            OperandValue::Pair { a, b } => {
                match dest.layout.abi {
                    Abi::ScalarPair { .. } => {},
                    _ => {
                        return Err(LowerError::UnexpectedType);
                    },
                }
                match Builder::check_struct_gep(cx, dest.llval, 0) {
                    Some(e) => {
                        return Err(e);
                    },
                    None => {},
                }
                match Builder::check_struct_gep(cx, dest.llval, 1) {
                    Some(e) => {
                        return Err(e);
                    },
                    None => {},
                }
                self.store_pair(cx, dest.llval, a, b, dest.align);
            },
        }
        Ok(())
    }
}

} // verus!
