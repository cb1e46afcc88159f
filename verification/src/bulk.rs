//! Bulk memory instructions: copies and fills, as calls of the library
//! functions that perform them.

use crate::builder::Builder;
use crate::context::CodegenCx;
use crate::ir::{Block, Node, RValue, Type};
use crate::kinds::{Builtin, LowerError, MemFlags};
use crate::model::CxView;
use vstd::prelude::*;

verus! {

impl Builder {
    /// `value` cast to the type of pointers to `pointee`: the pointer type,
    /// then the pointer cast.
    pub open spec fn as_pointer_to(cx: CxView, value: RValue, pointee: Type) -> CxView {
        Builder::spec_pointercast(cx.with_pointer(pointee), value, cx.pointer_type(pointee))->0
    }

    fn cast_to_pointer(&mut self, cx: &mut CodegenCx, value: RValue, pointee: Type) -> (r: RValue)
        requires
            old(cx).wf(),
            old(cx)@.valid_rvalue(value),
            old(cx)@.valid_type(pointee),
        ensures
            final(cx).wf(),
            final(cx)@ == Builder::as_pointer_to(old(cx)@, value, pointee),
            r.id == final(cx)@.values.len() - 1,
            final(cx)@.valid_rvalue(r),
            final(cx)@.type_of(r) == old(cx)@.pointer_type(pointee),
            final(cx)@.kind(final(cx)@.type_of(r)) == (crate::ir::TypeKind::Pointer { pointee }),
            *final(self) == *old(self),
            final(cx)@.blocks == old(cx)@.blocks,
            old(cx)@.grows_to(final(cx)@),
    {
        let ty = cx.make_pointer(pointee);
        match self.pointercast(cx, value, ty) {
            Ok(v) => v,
            Err(_) => value,
        }
    }

    /// A copy through library function `which`: the size converted to the
    /// unsigned pointer-sized type, the destination cast to a pointer to
    /// 8-bit integers, the source cast to a pointer to void, and the
    /// evaluation of the call on the three in the builder's block.
    pub open spec fn spec_copy(
        cx: CxView,
        at: Block,
        which: Builtin,
        dst: RValue,
        src: RValue,
        size: RValue,
    ) -> CxView {
        let c1 = cx.with_node(Node::Cast { value: size }, Type { id: 13 });
        let c2 = Builder::as_pointer_to(c1, dst, Type { id: 2 });
        let c3 = Builder::as_pointer_to(c2, src, Type { id: 0 });
        Builder::evaluated(
            c3,
            at,
            which,
            seq![
                RValue { id: (c2.values.len() - 1) as usize },
                RValue { id: (c3.values.len() - 1) as usize },
                cx.next_value(),
            ],
        )
    }

    /// A copy of one value: the load of the value through the source, the
    /// destination cast to a pointer to the value's type, and the store of
    /// the value through it.
    pub open spec fn spec_copy_value(cx: CxView, at: Block, dst: RValue, src: RValue) -> CxView {
        let c1 = Builder::spec_load(cx, at, src);
        let val = RValue { id: (cx.values.len() + 1) as usize };
        let c2 = Builder::as_pointer_to(c1, dst, cx.pointee(cx.type_of(src))->0);
        Builder::spec_store(c2, at, val, RValue { id: (c2.values.len() - 1) as usize })
    }

    /// What a copy instruction is lowered to: the copy of one value where
    /// the access is non-temporal, else the call of the library function.
    pub open spec fn spec_transfer(
        cx: CxView,
        at: Block,
        which: Builtin,
        dst: RValue,
        src: RValue,
        size: RValue,
        flags: MemFlags,
    ) -> Result<CxView, LowerError> {
        if flags.nontemporal {
            if cx.is_pointer(cx.type_of(src)) {
                Ok(Builder::spec_copy_value(cx, at, dst, src))
            } else {
                Err(LowerError::UnexpectedType)
            }
        } else {
            Ok(Builder::spec_copy(cx, at, which, dst, src, size))
        }
    }

    fn copy_value(
        &mut self,
        cx: &mut CodegenCx,
        dst: RValue,
        dst_align: u64,
        src: RValue,
        src_align: u64,
        flags: MemFlags,
    )
        requires
            old(cx).wf(),
            old(self).ready(old(cx)@),
            old(cx)@.valid_rvalue(dst),
            old(cx)@.valid_rvalue(src),
            old(cx)@.is_pointer(old(cx)@.type_of(src)),
        ensures
            final(cx).wf(),
            final(cx)@ == Builder::spec_copy_value(old(cx)@, old(self).at(), dst, src),
            *final(self) == *old(self),
            final(self).ready(final(cx)@),
            old(cx)@.grows_to(final(cx)@),
    {
        let val = self.load(cx, src, src_align);
        let val_ty = cx.val_ty(val);
        let ptr = self.cast_to_pointer(cx, dst, val_ty);
        self.store_with_flags(cx, val, ptr, dst_align, flags);
    }

    pub(crate) fn copy_call(
        &mut self,
        cx: &mut CodegenCx,
        which: Builtin,
        dst: RValue,
        src: RValue,
        size: RValue,
    )
        requires
            old(cx).wf(),
            old(self).ready(old(cx)@),
            old(cx)@.valid_rvalue(dst),
            old(cx)@.valid_rvalue(src),
            old(cx)@.valid_rvalue(size),
        ensures
            final(cx).wf(),
            final(cx)@ == Builder::spec_copy(old(cx)@, old(self).at(), which, dst, src, size),
            *final(self) == *old(self),
            final(self).ready(final(cx)@),
            old(cx)@.same_blocks_except(final(cx)@, old(self).at()),
            old(cx)@.grows_to(final(cx)@),
    {
        let size_t = cx.type_usize();
        let size = self.intcast(cx, size, size_t, false);
        let i8_type = cx.type_int(8);
        let dst = self.cast_to_pointer(cx, dst, i8_type);
        let void_type = cx.type_void();
        let src = self.cast_to_pointer(cx, src, void_type);
        let args = vec![dst, src, size];
        proof {
            assert(args@ =~= seq![dst, src, size]);
        }
        Builder::evaluate(cx, self.llbb(), which, args);
    }

    fn transfer(
        &mut self,
        cx: &mut CodegenCx,
        which: Builtin,
        dst: RValue,
        dst_align: u64,
        src: RValue,
        src_align: u64,
        size: RValue,
        flags: MemFlags,
    ) -> (r: Result<(), LowerError>)
        requires
            old(cx).wf(),
            old(self).ready(old(cx)@),
            old(cx)@.valid_rvalue(dst),
            old(cx)@.valid_rvalue(src),
            old(cx)@.valid_rvalue(size),
        ensures
            final(cx).wf(),
            match Builder::spec_transfer(old(cx)@, old(self).at(), which, dst, src, size, flags) {
                Ok(c) => final(cx)@ == c && r is Ok,
                Err(e) => final(cx)@ == old(cx)@ && r == Err::<(), LowerError>(e),
            },
            *final(self) == *old(self),
            final(self).ready(final(cx)@),
            old(cx)@.grows_to(final(cx)@),
    {
        if flags.nontemporal {
            let src_ty = cx.val_ty(src);
            if !cx.type_is_pointer(src_ty) {
                return Err(LowerError::UnexpectedType);
            }
            self.copy_value(cx, dst, dst_align, src, src_align, flags);
            return Ok(());
        }
        self.copy_call(cx, which, dst, src, size);
        Ok(())
    }

    /// Copies `size` bytes from `src` to `dst`, which do not overlap.
    /// `Err(UnexpectedType)`, with nothing changed, exactly for a
    /// non-temporal copy from a source that is no pointer.
    pub fn memcpy(
        &mut self,
        cx: &mut CodegenCx,
        dst: RValue,
        dst_align: u64,
        src: RValue,
        src_align: u64,
        size: RValue,
        flags: MemFlags,
    ) -> (r: Result<(), LowerError>)
        requires
            old(cx).wf(),
            old(self).ready(old(cx)@),
            old(cx)@.valid_rvalue(dst),
            old(cx)@.valid_rvalue(src),
            old(cx)@.valid_rvalue(size),
        ensures
            final(cx).wf(),
            match Builder::spec_transfer(
                old(cx)@,
                old(self).at(),
                Builtin::Memcpy,
                dst,
                src,
                size,
                flags,
            ) {
                Ok(c) => final(cx)@ == c && r is Ok,
                Err(e) => final(cx)@ == old(cx)@ && r == Err::<(), LowerError>(e),
            },
            *final(self) == *old(self),
            final(self).ready(final(cx)@),
            old(cx)@.grows_to(final(cx)@),
    {
        self.transfer(cx, Builtin::Memcpy, dst, dst_align, src, src_align, size, flags)
    }

    /// Copies `size` bytes from `src` to `dst`, which may overlap. Errors as
    /// for a copy between regions that do not.
    pub fn memmove(
        &mut self,
        cx: &mut CodegenCx,
        dst: RValue,
        dst_align: u64,
        src: RValue,
        src_align: u64,
        size: RValue,
        flags: MemFlags,
    ) -> (r: Result<(), LowerError>)
        requires
            old(cx).wf(),
            old(self).ready(old(cx)@),
            old(cx)@.valid_rvalue(dst),
            old(cx)@.valid_rvalue(src),
            old(cx)@.valid_rvalue(size),
        ensures
            final(cx).wf(),
            match Builder::spec_transfer(
                old(cx)@,
                old(self).at(),
                Builtin::Memmove,
                dst,
                src,
                size,
                flags,
            ) {
                Ok(c) => final(cx)@ == c && r is Ok,
                Err(e) => final(cx)@ == old(cx)@ && r == Err::<(), LowerError>(e),
            },
            *final(self) == *old(self),
            final(self).ready(final(cx)@),
            old(cx)@.grows_to(final(cx)@),
    {
        self.transfer(cx, Builtin::Memmove, dst, dst_align, src, src_align, size, flags)
    }

    /// A fill: the destination cast to a pointer to 8-bit integers, the
    /// byte converted to the 32-bit integer type, the size converted to the
    /// unsigned pointer-sized type, and the evaluation of the call on the
    /// three in the builder's block.
    pub open spec fn spec_memset(
        cx: CxView,
        at: Block,
        ptr: RValue,
        fill_byte: RValue,
        size: RValue,
    ) -> CxView {
        let c1 = Builder::as_pointer_to(cx, ptr, Type { id: 2 });
        let c2 = c1.with_node(Node::Cast { value: fill_byte }, Type { id: 4 });
        let c3 = c2.with_node(Node::Cast { value: size }, Type { id: 13 });
        Builder::evaluated(
            c3,
            at,
            Builtin::Memset,
            seq![RValue { id: (c1.values.len() - 1) as usize }, c1.next_value(), c2.next_value()],
        )
    }

    /// Fills `size` bytes at `ptr` with a byte.
    pub fn memset(
        &mut self,
        cx: &mut CodegenCx,
        ptr: RValue,
        fill_byte: RValue,
        size: RValue,
        align: u64,
        flags: MemFlags,
    )
        requires
            old(cx).wf(),
            old(self).ready(old(cx)@),
            old(cx)@.valid_rvalue(ptr),
            old(cx)@.valid_rvalue(fill_byte),
            old(cx)@.valid_rvalue(size),
        ensures
            final(cx).wf(),
            final(cx)@ == Builder::spec_memset(old(cx)@, old(self).at(), ptr, fill_byte, size),
            *final(self) == *old(self),
            final(self).ready(final(cx)@),
            old(cx)@.grows_to(final(cx)@),
    {
        let i8_type = cx.type_int(8);
        let ptr = self.cast_to_pointer(cx, ptr, i8_type);
        let i32_type = cx.type_int(32);
        let fill_byte = cx.new_cast(fill_byte, i32_type);
        let size_t = cx.type_usize();
        let size = self.intcast(cx, size, size_t, false);
        let args = vec![ptr, fill_byte, size];
        proof {
            assert(args@ =~= seq![ptr, fill_byte, size]);
        }
        Builder::evaluate(cx, self.llbb(), Builtin::Memset, args);
    }
}

} // verus!
