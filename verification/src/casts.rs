//! Conversions between types, and comparisons.

use crate::builder::Builder;
use crate::context::CodegenCx;
use crate::ir::{Node, RValue, Type};
use crate::kinds::{IntPredicate, LowerError, RealPredicate};
use crate::model::CxView;
use vstd::prelude::*;

verus! {

impl Builder {
    /// An integer narrowed to a smaller integer type.
    pub fn trunc(&mut self, cx: &mut CodegenCx, value: RValue, dest_ty: Type) -> (r: RValue)
        requires
            old(cx).wf(),
            old(cx)@.valid_rvalue(value),
            old(cx)@.valid_type(dest_ty),
        ensures
            final(cx).wf(),
            final(cx)@ == old(cx)@.with_node(Node::Cast { value }, dest_ty),
            r == old(cx)@.next_value(),
            final(cx)@.valid_rvalue(r),
            *final(self) == *old(self),
            old(cx)@.grows_to(final(cx)@),
    {
        cx.new_cast(value, dest_ty)
    }

    /// A floating-point value converted to an unsigned integer.
    pub fn fptoui(&mut self, cx: &mut CodegenCx, value: RValue, dest_ty: Type) -> (r: RValue)
        requires
            old(cx).wf(),
            old(cx)@.valid_rvalue(value),
            old(cx)@.valid_type(dest_ty),
        ensures
            final(cx).wf(),
            final(cx)@ == old(cx)@.with_node(Node::Cast { value }, dest_ty),
            r == old(cx)@.next_value(),
            final(cx)@.valid_rvalue(r),
            *final(self) == *old(self),
            old(cx)@.grows_to(final(cx)@),
    {
        cx.new_cast(value, dest_ty)
    }

    /// A floating-point value converted to a signed integer.
    pub fn fptosi(&mut self, cx: &mut CodegenCx, value: RValue, dest_ty: Type) -> (r: RValue)
        requires
            old(cx).wf(),
            old(cx)@.valid_rvalue(value),
            old(cx)@.valid_type(dest_ty),
        ensures
            final(cx).wf(),
            final(cx)@ == old(cx)@.with_node(Node::Cast { value }, dest_ty),
            r == old(cx)@.next_value(),
            final(cx)@.valid_rvalue(r),
            *final(self) == *old(self),
            old(cx)@.grows_to(final(cx)@),
    {
        cx.new_cast(value, dest_ty)
    }

    /// An unsigned integer converted to a floating-point type.
    pub fn uitofp(&mut self, cx: &mut CodegenCx, value: RValue, dest_ty: Type) -> (r: RValue)
        requires
            old(cx).wf(),
            old(cx)@.valid_rvalue(value),
            old(cx)@.valid_type(dest_ty),
        ensures
            final(cx).wf(),
            final(cx)@ == old(cx)@.with_node(Node::Cast { value }, dest_ty),
            r == old(cx)@.next_value(),
            final(cx)@.valid_rvalue(r),
            *final(self) == *old(self),
            old(cx)@.grows_to(final(cx)@),
    {
        cx.new_cast(value, dest_ty)
    }

    /// A signed integer converted to a floating-point type.
    pub fn sitofp(&mut self, cx: &mut CodegenCx, value: RValue, dest_ty: Type) -> (r: RValue)
        requires
            old(cx).wf(),
            old(cx)@.valid_rvalue(value),
            old(cx)@.valid_type(dest_ty),
        ensures
            final(cx).wf(),
            final(cx)@ == old(cx)@.with_node(Node::Cast { value }, dest_ty),
            r == old(cx)@.next_value(),
            final(cx)@.valid_rvalue(r),
            *final(self) == *old(self),
            old(cx)@.grows_to(final(cx)@),
    {
        cx.new_cast(value, dest_ty)
    }

    /// A floating-point value narrowed to a smaller floating-point type.
    pub fn fptrunc(&mut self, cx: &mut CodegenCx, value: RValue, dest_ty: Type) -> (r: RValue)
        requires
            old(cx).wf(),
            old(cx)@.valid_rvalue(value),
            old(cx)@.valid_type(dest_ty),
        ensures
            final(cx).wf(),
            final(cx)@ == old(cx)@.with_node(Node::Cast { value }, dest_ty),
            r == old(cx)@.next_value(),
            final(cx)@.valid_rvalue(r),
            *final(self) == *old(self),
            old(cx)@.grows_to(final(cx)@),
    {
        cx.new_cast(value, dest_ty)
    }

    /// A floating-point value widened to a larger floating-point type.
    pub fn fpext(&mut self, cx: &mut CodegenCx, value: RValue, dest_ty: Type) -> (r: RValue)
        requires
            old(cx).wf(),
            old(cx)@.valid_rvalue(value),
            old(cx)@.valid_type(dest_ty),
        ensures
            final(cx).wf(),
            final(cx)@ == old(cx)@.with_node(Node::Cast { value }, dest_ty),
            r == old(cx)@.next_value(),
            final(cx)@.valid_rvalue(r),
            *final(self) == *old(self),
            old(cx)@.grows_to(final(cx)@),
    {
        cx.new_cast(value, dest_ty)
    }

    /// A pointer converted to an integer.
    pub fn ptrtoint(&mut self, cx: &mut CodegenCx, value: RValue, dest_ty: Type) -> (r: RValue)
        requires
            old(cx).wf(),
            old(cx)@.valid_rvalue(value),
            old(cx)@.valid_type(dest_ty),
        ensures
            final(cx).wf(),
            final(cx)@ == old(cx)@.with_node(Node::Cast { value }, dest_ty),
            r == old(cx)@.next_value(),
            final(cx)@.valid_rvalue(r),
            *final(self) == *old(self),
            old(cx)@.grows_to(final(cx)@),
    {
        cx.new_cast(value, dest_ty)
    }

    /// An integer converted to a pointer.
    pub fn inttoptr(&mut self, cx: &mut CodegenCx, value: RValue, dest_ty: Type) -> (r: RValue)
        requires
            old(cx).wf(),
            old(cx)@.valid_rvalue(value),
            old(cx)@.valid_type(dest_ty),
        ensures
            final(cx).wf(),
            final(cx)@ == old(cx)@.with_node(Node::Cast { value }, dest_ty),
            r == old(cx)@.next_value(),
            final(cx)@.valid_rvalue(r),
            *final(self) == *old(self),
            old(cx)@.grows_to(final(cx)@),
    {
        cx.new_cast(value, dest_ty)
    }

    /// An integer converted to another integer type. `is_signed` says
    /// whether the value is signed; the conversion goes by the types.
    pub fn intcast(
        &mut self,
        cx: &mut CodegenCx,
        value: RValue,
        dest_typ: Type,
        is_signed: bool,
    ) -> (r: RValue)
        requires
            old(cx).wf(),
            old(cx)@.valid_rvalue(value),
            old(cx)@.valid_type(dest_typ),
        ensures
            final(cx).wf(),
            final(cx)@ == old(cx)@.with_node(Node::Cast { value }, dest_typ),
            r == old(cx)@.next_value(),
            final(cx)@.valid_rvalue(r),
            *final(self) == *old(self),
            old(cx)@.grows_to(final(cx)@),
    {
        cx.new_cast(value, dest_typ)
    }

    /// The bits of a value read as another type.
    pub fn bitcast(&mut self, cx: &mut CodegenCx, value: RValue, dest_ty: Type) -> (r: RValue)
        requires
            old(cx).wf(),
            old(cx)@.valid_rvalue(value),
            old(cx)@.valid_type(dest_ty),
        ensures
            final(cx).wf(),
            final(cx)@ == old(cx)@.with_node(Node::Bitcast { value }, dest_ty),
            r == old(cx)@.next_value(),
            final(cx)@.valid_rvalue(r),
            *final(self) == *old(self),
            old(cx)@.grows_to(final(cx)@),
    {
        cx.new_bitcast(value, dest_ty)
    }

    /// Zero extension. A boolean that is to become an 8-bit signed integer
    /// is handed back as it is; anything else is converted.
    pub fn zext(&mut self, cx: &mut CodegenCx, value: RValue, dest_typ: Type) -> (r: RValue)
        requires
            old(cx).wf(),
            old(cx)@.valid_rvalue(value),
            old(cx)@.valid_type(dest_typ),
        ensures
            final(cx).wf(),
            Builder::zext_is_identity(old(cx)@, value, dest_typ) ==> final(cx)@ == old(cx)@ && r
                == value,
            !Builder::zext_is_identity(old(cx)@, value, dest_typ) ==> final(cx)@
                == old(cx)@.with_node(Node::Cast { value }, dest_typ) && r
                == old(cx)@.next_value(),
            final(cx)@.valid_rvalue(r),
            *final(self) == *old(self),
            old(cx)@.grows_to(final(cx)@),
    {
        let ty = cx.val_ty(value);
        if cx.is_bool(ty) && cx.is_i8(dest_typ) {
            return value;
        }
        cx.new_cast(value, dest_typ)
    }

    pub open spec fn zext_is_identity(cx: CxView, value: RValue, dest: Type) -> bool {
        cx.kind(cx.type_of(value)) is Bool && cx.kind(dest) == (crate::ir::TypeKind::Int {
            bits: 8,
            signed: true,
        })
    }

    /// The comparison of two integers under a predicate.
    pub fn icmp(
        &mut self,
        cx: &mut CodegenCx,
        op: IntPredicate,
        lhs: RValue,
        rhs: RValue,
    ) -> (r: RValue)
        requires
            old(cx).wf(),
            old(cx)@.valid_rvalue(lhs),
            old(cx)@.valid_rvalue(rhs),
        ensures
            final(cx).wf(),
            final(cx)@ == old(cx)@.with_comparison(op.spec_to_gcc_comparison(), lhs, rhs),
            r == old(cx)@.next_value(),
            final(cx)@.valid_rvalue(r),
            *final(self) == *old(self),
            old(cx)@.grows_to(final(cx)@),
    {
        cx.new_comparison(op.to_gcc_comparison(), lhs, rhs)
    }

    /// The comparison of two floating-point values under a predicate.
    /// `Err(Unsupported)`, with nothing changed, exactly for a predicate
    /// that is not decided by comparing.
    pub fn fcmp(&mut self, cx: &mut CodegenCx, op: RealPredicate, lhs: RValue, rhs: RValue) -> (r:
        Result<RValue, LowerError>)
        requires
            old(cx).wf(),
            old(cx)@.valid_rvalue(lhs),
            old(cx)@.valid_rvalue(rhs),
        ensures
            final(cx).wf(),
            match op.spec_to_gcc_comparison() {
                Some(c) => final(cx)@ == old(cx)@.with_comparison(c, lhs, rhs) && r == Ok::<
                    RValue,
                    LowerError,
                >(old(cx)@.next_value()),
                None => final(cx)@ == old(cx)@ && r == Err::<RValue, LowerError>(
                    LowerError::Unsupported,
                ),
            },
            r matches Ok(v) ==> final(cx)@.valid_rvalue(v),
            *final(self) == *old(self),
            old(cx)@.grows_to(final(cx)@),
    {
        match op.to_gcc_comparison() {
            Ok(c) => Ok(cx.new_comparison(c, lhs, rhs)),
            Err(e) => Err(e),
        }
    }

    /// A pointer cast. A value that is no pointer becomes a pointer by way
    /// of a pointer to its own type; between two non-pointers the bits are
    /// reinterpreted; a pointer cannot become a non-pointer.
    pub open spec fn spec_pointercast(cx: CxView, value: RValue, dest: Type) -> Option<CxView> {
        let ty = cx.type_of(value);
        if cx.is_pointer(ty) {
            if cx.is_pointer(dest) {
                Some(cx.with_node(Node::Cast { value }, dest))
            } else {
                None
            }
        } else {
            if cx.is_pointer(dest) {
                let c1 = cx.with_pointer(ty);
                let c2 = c1.with_node(Node::Cast { value }, cx.pointer_type(ty));
                Some(c2.with_node(Node::Cast { value: c1.next_value() }, dest))
            } else {
                Some(cx.with_node(Node::Bitcast { value }, dest))
            }
        }
    }

    /// A pointer cast. `Err(Unsupported)`, with nothing changed, exactly
    /// for a pointer that is to become a non-pointer.
    pub fn pointercast(&mut self, cx: &mut CodegenCx, value: RValue, dest_ty: Type) -> (r: Result<
        RValue,
        LowerError,
    >)
        requires
            old(cx).wf(),
            old(cx)@.valid_rvalue(value),
            old(cx)@.valid_type(dest_ty),
        ensures
            final(cx).wf(),
            match Builder::spec_pointercast(old(cx)@, value, dest_ty) {
                Some(c) => final(cx)@ == c && r is Ok,
                None => final(cx)@ == old(cx)@ && r == Err::<RValue, LowerError>(
                    LowerError::Unsupported,
                ),
            },
            r matches Ok(v) ==> v.id == final(cx)@.values.len() - 1 && final(cx)@.valid_rvalue(v)
                && final(cx)@.type_of(v) == dest_ty,
            *final(self) == *old(self),
            final(cx)@.blocks == old(cx)@.blocks,
            old(cx)@.grows_to(final(cx)@),
    {
        let val_type = cx.val_ty(value);
        let from_pointer = cx.type_is_pointer(val_type);
        let to_pointer = cx.type_is_pointer(dest_ty);
        if from_pointer {
            if to_pointer {
                Ok(cx.new_cast(value, dest_ty))
            } else {
                Err(LowerError::Unsupported)
            }
        } else {
            if to_pointer {
                let ptr_ty = cx.make_pointer(val_type);
                let as_ptr = cx.new_cast(value, ptr_ty);
                Ok(cx.new_cast(as_ptr, dest_ty))
            } else {
                Ok(cx.new_bitcast(value, dest_ty))
            }
        }
    }
}

} // verus!
