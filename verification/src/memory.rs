//! Memory instructions: stack slots, loads and stores.

use crate::builder::Builder;
use crate::context::CodegenCx;
use crate::ir::{Block, Node, RValue, SlotName, Statement, Type};
use crate::model::CxView;
use vstd::prelude::*;

verus! {

impl Builder {
    /// A stack slot: the aligned type, a slot of it named `stack_var`, and
    /// the slot's address.
    pub open spec fn spec_alloca(cx: CxView, at: Block, ty: Type, align: u64) -> CxView {
        let c1 = cx.with_aligned(ty, align);
        let c2 = c1.with_local(cx.owner(at)->id, cx.aligned_type(ty, align), SlotName::StackVar);
        c2.with_address(c1.next_place())
    }

    /// A stack slot of a type with an alignment in bytes; the result is the
    /// slot's address.
    pub fn alloca(&mut self, cx: &mut CodegenCx, ty: Type, align: u64) -> (r: RValue)
        requires
            old(cx).wf(),
            old(self).block matches Some(b) && old(cx)@.valid_block(b),
            old(cx)@.valid_type(ty),
        ensures
            final(cx).wf(),
            final(cx)@ == Builder::spec_alloca(old(cx)@, old(self).at(), ty, align),
            r.id == old(cx)@.values.len() + 1,
            final(cx)@.valid_rvalue(r),
            final(cx)@.is_pointer(final(cx)@.type_of(r)),
            *final(self) == *old(self),
            old(cx)@.grows_to(final(cx)@),
    {
        let func = self.current_func(cx);
        let aligned_type = cx.get_aligned(ty, align);
        let local = cx.new_local(func, aligned_type, SlotName::StackVar);
        cx.get_address(local)
    }

    /// A load: the location behind the pointer, a fresh slot of its type
    /// named after the next number of the counter, and the assignment of
    /// the location to the slot in the builder's block.
    pub open spec fn spec_load(cx: CxView, at: Block, ptr: RValue) -> CxView {
        let c1 = cx.with_deref(ptr);
        let c2 = c1.with_fresh_local(cx.owner(at)->id, cx.pointee(cx.type_of(ptr))->0, true);
        c2.emit(at, Statement::Assign { place: c1.next_place(), value: cx.next_value() })
    }

    /// Loads through a pointer. The loaded value is bound to a fresh slot of
    /// the builder's block, so that it is read where the load stands; the
    /// result is that slot.
    pub fn load(&mut self, cx: &mut CodegenCx, ptr: RValue, align: u64) -> (r: RValue)
        requires
            old(cx).wf(),
            old(self).ready(old(cx)@),
            old(cx)@.valid_rvalue(ptr),
            old(cx)@.is_pointer(old(cx)@.type_of(ptr)),
        ensures
            final(cx).wf(),
            final(cx)@ == Builder::spec_load(old(cx)@, old(self).at(), ptr),
            r.id == old(cx)@.values.len() + 1,
            final(cx)@.valid_rvalue(r),
            final(cx)@.type_of(r) == old(cx)@.pointee(old(cx)@.type_of(ptr))->0,
            final(cx)@.fresh == old(cx)@.fresh + 1,
            *final(self) == *old(self),
            final(self).ready(final(cx)@),
            old(cx)@.same_blocks_except(final(cx)@, old(self).at()),
            old(cx)@.grows_to(final(cx)@),
    {
        let block = self.llbb();
        let function = cx.get_function(block);
        let deref = cx.dereference(ptr).to_rvalue();
        let value_type = cx.val_ty(deref);
        let loaded_value = cx.new_fresh_local(function, value_type, true);
        cx.add_assignment(block, loaded_value, deref);
        loaded_value.to_rvalue()
    }

    /// A volatile load: the volatile form of the pointer's type, the pointer
    /// converted to it, and the location behind the converted pointer.
    pub open spec fn spec_volatile_load(cx: CxView, ptr: RValue) -> CxView {
        let ty = cx.type_of(ptr);
        let c1 = cx.with_volatile(ty);
        let c2 = c1.with_node(Node::Cast { value: ptr }, cx.volatile_type(ty));
        c2.with_deref(c1.next_value())
    }

    /// Loads through a pointer with volatile semantics. The result is the
    /// location itself, read where it is used.
    pub fn volatile_load(&mut self, cx: &mut CodegenCx, ptr: RValue) -> (r: RValue)
        requires
            old(cx).wf(),
            old(cx)@.valid_rvalue(ptr),
            old(cx)@.is_pointer(old(cx)@.type_of(ptr)),
        ensures
            final(cx).wf(),
            final(cx)@ == Builder::spec_volatile_load(old(cx)@, ptr),
            r.id == old(cx)@.values.len() + 1,
            final(cx)@.valid_rvalue(r),
            *final(self) == *old(self),
            old(cx)@.grows_to(final(cx)@),
    {
        let ty = cx.val_ty(ptr);
        let volatile = cx.make_volatile(ty);
        let ptr = cx.new_cast(ptr, volatile);
        cx.dereference(ptr).to_rvalue()
    }

    /// The pointer to store `val` through: `ptr` itself where it is a
    /// pointer to the type of `val`, else `ptr` with its bits read as such a
    /// pointer.
    pub open spec fn spec_check_store(cx: CxView, val: RValue, ptr: RValue) -> CxView {
        let c1 = cx.with_pointer(cx.type_of(val));
        if cx.type_of(ptr) == cx.pointer_type(cx.type_of(val)) {
            c1
        } else {
            c1.with_node(Node::Bitcast { value: ptr }, cx.pointer_type(cx.type_of(val)))
        }
    }

    fn check_store(&mut self, cx: &mut CodegenCx, val: RValue, ptr: RValue) -> (r: RValue)
        requires
            old(cx).wf(),
            old(cx)@.valid_rvalue(val),
            old(cx)@.valid_rvalue(ptr),
        ensures
            final(cx).wf(),
            final(cx)@ == Builder::spec_check_store(old(cx)@, val, ptr),
            r == (if old(cx)@.type_of(ptr) == old(cx)@.pointer_type(old(cx)@.type_of(val)) {
                ptr
            } else {
                old(cx)@.next_value()
            }),
            final(cx)@.valid_rvalue(r),
            final(cx)@.kind(final(cx)@.type_of(r)) == (crate::ir::TypeKind::Pointer {
                pointee: old(cx)@.type_of(val),
            }),
            *final(self) == *old(self),
            old(cx)@.grows_to(final(cx)@),
    {
        let dest_ptr_ty = cx.val_ty(ptr);
        let stored_ty = cx.val_ty(val);
        let stored_ptr_ty = cx.make_pointer(stored_ty);
        if dest_ptr_ty == stored_ptr_ty {
            ptr
        } else {
            cx.new_bitcast(ptr, stored_ptr_ty)
        }
    }

    /// A store: the checked pointer, the location behind it, the assignment
    /// of the value to the location in the builder's block, and a zero of
    /// the 32-bit integer type as the result.
    pub open spec fn spec_store(cx: CxView, at: Block, val: RValue, ptr: RValue) -> CxView {
        let c1 = Builder::spec_check_store(cx, val, ptr);
        let checked = if cx.type_of(ptr) == cx.pointer_type(cx.type_of(val)) {
            ptr
        } else {
            cx.next_value()
        };
        let c2 = c1.with_deref(checked);
        let c3 = c2.emit(at, Statement::Assign { place: c1.next_place(), value: val });
        c3.with_node(Node::Int { value: 0 }, Type { id: 4 })
    }

    /// Stores a value through a pointer.
    pub fn store(&mut self, cx: &mut CodegenCx, val: RValue, ptr: RValue, align: u64) -> (r: RValue)
        requires
            old(cx).wf(),
            old(self).ready(old(cx)@),
            old(cx)@.valid_rvalue(val),
            old(cx)@.valid_rvalue(ptr),
        ensures
            final(cx).wf(),
            final(cx)@ == Builder::spec_store(old(cx)@, old(self).at(), val, ptr),
            r.id == final(cx)@.values.len() - 1,
            final(cx)@.valid_rvalue(r),
            *final(self) == *old(self),
            final(self).ready(final(cx)@),
            old(cx)@.same_blocks_except(final(cx)@, old(self).at()),
            old(cx)@.grows_to(final(cx)@),
    {
        self.store_with_flags(
            cx,
            val,
            ptr,
            align,
            crate::kinds::MemFlags { volatile: false, nontemporal: false, unaligned: false },
        )
    }

    /// Stores a value through a pointer. The flags do not change what is
    /// emitted.
    pub fn store_with_flags(
        &mut self,
        cx: &mut CodegenCx,
        val: RValue,
        ptr: RValue,
        align: u64,
        flags: crate::kinds::MemFlags,
    ) -> (r: RValue)
        requires
            old(cx).wf(),
            old(self).ready(old(cx)@),
            old(cx)@.valid_rvalue(val),
            old(cx)@.valid_rvalue(ptr),
        ensures
            final(cx).wf(),
            final(cx)@ == Builder::spec_store(old(cx)@, old(self).at(), val, ptr),
            r.id == final(cx)@.values.len() - 1,
            final(cx)@.valid_rvalue(r),
            *final(self) == *old(self),
            final(self).ready(final(cx)@),
            old(cx)@.same_blocks_except(final(cx)@, old(self).at()),
            old(cx)@.grows_to(final(cx)@),
    {
        let ptr = self.check_store(cx, val, ptr);
        let place = cx.dereference(ptr);
        cx.add_assignment(self.llbb(), place, val);
        let ty = cx.type_int(32);
        cx.new_rvalue_zero(ty)
    }
}

} // verus!
