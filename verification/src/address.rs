//! Addresses of elements and members, and reads and writes of the members
//! of an aggregate value.

use crate::builder::Builder;
use crate::context::CodegenCx;
use crate::ir::{Block, Node, RValue, Statement, Type};
use crate::kinds::LowerError;
use crate::model::CxView;
use vstd::prelude::*;

verus! {

impl Builder {
    /// The address of an element: the element of `base` at `index`, then
    /// the address of that location.
    pub open spec fn element_address(cx: CxView, base: RValue, index: RValue) -> CxView {
        cx.with_element(base, index).with_address(cx.next_place())
    }

    /// The context after the first `n` steps of an address computation:
    /// each step takes the address of the element at the next index, from
    /// the address that the step before gave.
    pub open spec fn spec_gep(cx: CxView, ptr: RValue, indices: Seq<RValue>, n: int) -> CxView
        decreases n,
    {
        if n <= 0 {
            cx
        } else {
            let c = Builder::spec_gep(cx, ptr, indices, n - 1);
            Builder::element_address(c, Builder::gep_result(cx, ptr, n - 1), indices[n - 1])
        }
    }

    /// The address that `n` steps give: the pointer itself for none, else
    /// the second of the two nodes of the last step.
    pub open spec fn gep_result(cx: CxView, ptr: RValue, n: int) -> RValue {
        if n <= 0 {
            ptr
        } else {
            RValue { id: (cx.values.len() + 2 * n - 1) as usize }
        }
    }

    /// The address of an element reached through a list of indices, each
    /// applied to the address that the one before gave.
    /// `Err(UnexpectedType)`, with nothing changed, exactly where there are
    /// indices and `ptr` is neither a pointer, an array nor a vector.
    pub fn gep(&mut self, cx: &mut CodegenCx, ptr: RValue, indices: &Vec<RValue>) -> (r: Result<
        RValue,
        LowerError,
    >)
        requires
            old(cx).wf(),
            old(cx)@.valid_rvalue(ptr),
            old(cx)@.valid_rvalues(indices@),
        ensures
            final(cx).wf(),
            indices@.len() > 0 && old(cx)@.element(old(cx)@.type_of(ptr)) is None ==> final(cx)@
                == old(cx)@ && r == Err::<RValue, LowerError>(LowerError::UnexpectedType),
            !(indices@.len() > 0 && old(cx)@.element(old(cx)@.type_of(ptr)) is None) ==> {
                &&& final(cx)@ == Builder::spec_gep(old(cx)@, ptr, indices@, indices@.len() as int)
                &&& r == Ok::<RValue, LowerError>(
                    Builder::gep_result(old(cx)@, ptr, indices@.len() as int),
                )
            },
            r matches Ok(v) ==> final(cx)@.valid_rvalue(v),
            *final(self) == *old(self),
            old(cx)@.grows_to(final(cx)@),
    {
        let ghost pre = cx@;
        if indices.len() > 0 {
            let ty = cx.val_ty(ptr);
            if cx.element_type(ty).is_none() {
                return Err(LowerError::UnexpectedType);
            }
        }
        let mut result = ptr;
        let mut i: usize = 0;
        while i < indices.len()
            invariant
                i <= indices@.len(),
                cx.wf(),
                pre.wf(),
                pre.valid_rvalue(ptr),
                pre.valid_rvalues(indices@),
                indices@.len() > 0 ==> pre.element(pre.type_of(ptr)) is Some,
                cx@ == Builder::spec_gep(pre, ptr, indices@, i as int),
                result == Builder::gep_result(pre, ptr, i as int),
                cx@.values.len() == pre.values.len() + 2 * i,
                cx@.valid_rvalue(result),
                indices@.len() > 0 ==> cx@.element(cx@.type_of(result)) is Some,
                pre.grows_to(cx@),
            decreases indices@.len() - i,
        {
            let index = indices[i];
            proof {
                assert(pre.valid_rvalue(indices@[i as int]));
            }
            let element = cx.new_array_access(result, index);
            result = cx.get_address(element);
            i += 1;
        }
        Ok(result)
    }

    /// An address within bounds, by one index into what `ptr` points at or
    /// by two, of which the second indexes the array behind `ptr`.
    pub open spec fn spec_inbounds_gep(cx: CxView, ptr: RValue, indices: Seq<RValue>) -> Result<
        CxView,
        LowerError,
    > {
        let ty = cx.type_of(ptr);
        if indices.len() == 1 {
            if cx.element(ty) is Some {
                Ok(Builder::element_address(cx, ptr, indices[0]))
            } else {
                Err(LowerError::UnexpectedType)
            }
        } else if indices.len() == 2 {
            if cx.pointee(ty) is Some && cx.element(cx.pointee(ty)->0) is Some {
                Ok(Builder::element_address(cx.with_deref(ptr), cx.next_value(), indices[1]))
            } else {
                Err(LowerError::UnexpectedType)
            }
        } else {
            Err(LowerError::Unsupported)
        }
    }

    /// The type of the element that an address within bounds points to.
    pub open spec fn inbounds_target(cx: CxView, ptr: RValue, indices: Seq<RValue>) -> Type {
        let ty = cx.type_of(ptr);
        if indices.len() == 1 {
            cx.element(ty)->0
        } else {
            cx.element(cx.pointee(ty)->0)->0
        }
    }

    /// The address of an element that is known to lie within its object.
    /// `Err(Unsupported)` for another number of indices than one or two,
    /// `Err(UnexpectedType)` where `ptr` cannot be indexed so; an error
    /// leaves everything unchanged.
    pub fn inbounds_gep(&mut self, cx: &mut CodegenCx, ptr: RValue, indices: &Vec<RValue>) -> (r:
        Result<RValue, LowerError>)
        requires
            old(cx).wf(),
            old(cx)@.valid_rvalue(ptr),
            old(cx)@.valid_rvalues(indices@),
        ensures
            final(cx).wf(),
            match Builder::spec_inbounds_gep(old(cx)@, ptr, indices@) {
                Ok(c) => final(cx)@ == c && r is Ok,
                Err(e) => final(cx)@ == old(cx)@ && r == Err::<RValue, LowerError>(e),
            },
            r matches Ok(v) ==> v.id == final(cx)@.values.len() - 1 && final(cx)@.valid_rvalue(v),
            r matches Ok(v) ==> final(cx)@.kind(final(cx)@.type_of(v)) == (crate::ir::TypeKind::Pointer {
                pointee: Builder::inbounds_target(old(cx)@, ptr, indices@),
            }),
            *final(self) == *old(self),
            old(cx)@.grows_to(final(cx)@),
    {
        let ty = cx.val_ty(ptr);
        if indices.len() == 1 {
            if cx.element_type(ty).is_none() {
                return Err(LowerError::UnexpectedType);
            }
            let element = cx.new_array_access(ptr, indices[0]);
            Ok(cx.get_address(element))
        } else if indices.len() == 2 {
            match cx.pointee(ty) {
                Some(array_ty) => {
                    if cx.element_type(array_ty).is_none() {
                        return Err(LowerError::UnexpectedType);
                    }
                    let array = cx.dereference(ptr);
                    let element = cx.new_array_access(array.to_rvalue(), indices[1]);
                    Ok(cx.get_address(element))
                },
                None => Err(LowerError::UnexpectedType),
            }
        } else {
            Err(LowerError::Unsupported)
        }
    }

    /// Why member `idx` of an aggregate type cannot be reached, if it
    /// cannot: the index does not fit the machine, the array index does not
    /// fit a signed 64-bit integer, the struct has no such field, the type
    /// is a vector, or it is no aggregate at all.
    pub open spec fn member_error(cx: CxView, aggregate: Type, idx: u64) -> Option<LowerError> {
        if idx > usize::MAX {
            Some(LowerError::BadIndex)
        } else {
            match cx.kind(aggregate) {
                crate::ir::TypeKind::Array { .. } => if idx > i64::MAX {
                    Some(LowerError::BadIndex)
                } else {
                    None
                },
                crate::ir::TypeKind::Vector { .. } => Some(LowerError::Unsupported),
                crate::ir::TypeKind::Struct => if cx.field(aggregate, idx as usize) is Some {
                    None
                } else {
                    Some(LowerError::BadIndex)
                },
                _ => Some(LowerError::UnexpectedType),
            }
        }
    }

    /// Why member `idx` of what `ptr` points to cannot be reached, if it
    /// cannot.
    pub open spec fn struct_gep_error(cx: CxView, ptr: RValue, idx: u64) -> Option<LowerError> {
        if idx > usize::MAX {
            Some(LowerError::BadIndex)
        } else {
            match cx.pointee(cx.type_of(ptr)) {
                None => Some(LowerError::UnexpectedType),
                Some(ty) => Builder::member_error(cx, ty, idx),
            }
        }
    }

    /// The address of member `idx` of the aggregate that `ptr` points to:
    /// for an array, the address of the element; for a struct, the address
    /// of the field.
    pub open spec fn spec_struct_gep(
        cx: CxView,
        ptr: RValue,
        idx: u64,
    ) -> Result<CxView, LowerError> {
        match Builder::struct_gep_error(cx, ptr, idx) {
            Some(e) => Err(e),
            None => {
                let ty = cx.pointee(cx.type_of(ptr))->0;
                let c1 = cx.with_deref(ptr);
                if cx.kind(ty) is Array {
                    let c2 = c1.with_node(Node::Int { value: idx as i64 }, Type { id: 10 });
                    Ok(Builder::element_address(c2, cx.next_value(), c1.next_value()))
                } else {
                    let c2 = c1.with_node(
                        Node::DerefField { ptr, field: idx as usize },
                        cx.field(ty, idx as usize)->0,
                    );
                    Ok(c2.with_address(c1.next_place()))
                }
            },
        }
    }

    /// Decides whether a member of an aggregate type can be reached.
    pub fn check_member(cx: &CodegenCx, aggregate: Type, idx: u64) -> (r: Option<LowerError>)
        requires
            cx.wf(),
            cx@.valid_type(aggregate),
        ensures
            r == Builder::member_error(cx@, aggregate, idx),
    {
        if idx > usize::MAX as u64 {
            return Some(LowerError::BadIndex);
        }
        match cx.kind(aggregate) {
            crate::ir::TypeKind::Array { .. } => {
                if idx > i64::MAX as u64 {
                    Some(LowerError::BadIndex)
                } else {
                    None
                }
            },
            crate::ir::TypeKind::Vector { .. } => Some(LowerError::Unsupported),
            crate::ir::TypeKind::Struct => {
                if cx.field_type(aggregate, idx as usize).is_some() {
                    None
                } else {
                    Some(LowerError::BadIndex)
                }
            },
            _ => Some(LowerError::UnexpectedType),
        }
    }

    /// The address of a member of the aggregate behind a pointer.
    /// `Err(BadIndex)` for an index that the machine or the struct cannot
    /// hold, `Err(UnexpectedType)` where `ptr` does not point to an
    /// aggregate, `Err(Unsupported)` for a vector; an error leaves
    /// everything unchanged.
    pub fn struct_gep(&mut self, cx: &mut CodegenCx, ptr: RValue, idx: u64) -> (r: Result<
        RValue,
        LowerError,
    >)
        requires
            old(cx).wf(),
            old(cx)@.valid_rvalue(ptr),
        ensures
            final(cx).wf(),
            match Builder::spec_struct_gep(old(cx)@, ptr, idx) {
                Ok(c) => final(cx)@ == c && r is Ok,
                Err(e) => final(cx)@ == old(cx)@ && r == Err::<RValue, LowerError>(e),
            },
            r matches Ok(v) ==> v.id == final(cx)@.values.len() - 1 && final(cx)@.valid_rvalue(v)
                && final(cx)@.is_pointer(final(cx)@.type_of(v)),
            *final(self) == *old(self),
            final(cx)@.blocks == old(cx)@.blocks,
            old(cx)@.grows_to(final(cx)@),
    {
        if idx > usize::MAX as u64 {
            return Err(LowerError::BadIndex);
        }
        let ptr_ty = cx.val_ty(ptr);
        let value_type = match cx.pointee(ptr_ty) {
            Some(t) => t,
            None => {
                return Err(LowerError::UnexpectedType);
            },
        };
        match Builder::check_member(cx, value_type, idx) {
            Some(e) => {
                return Err(e);
            },
            None => {},
        }
        let value = cx.dereference(ptr).to_rvalue();
        match cx.kind(value_type) {
            crate::ir::TypeKind::Array { .. } => {
                let u64_type = cx.type_uint(64);
                let index = cx.new_rvalue_from_long(u64_type, idx as i64);
                let element = cx.new_array_access(value, index);
                Ok(cx.get_address(element))
            },
            _ => {
                let field_ty = cx.field_type(value_type, idx as usize).unwrap();
                let field = cx.dereference_field(ptr, idx as usize, field_ty);
                Ok(cx.get_address(field))
            },
        }
    }

    /// Member `idx` of an aggregate value: for an array, the address of the
    /// element; for a struct, the field.
    pub open spec fn spec_extract_value(cx: CxView, aggregate: RValue, idx: u64) -> Result<
        CxView,
        LowerError,
    > {
        let ty = cx.type_of(aggregate);
        if idx > usize::MAX {
            Err(LowerError::BadIndex)
        } else {
            match cx.kind(ty) {
                crate::ir::TypeKind::Array { .. } => if idx > i64::MAX {
                    Err(LowerError::BadIndex)
                } else {
                    let c1 = cx.with_node(Node::Int { value: idx as i64 }, Type { id: 10 });
                    Ok(Builder::element_address(c1, aggregate, cx.next_value()))
                },
                crate::ir::TypeKind::Vector { .. } => Err(LowerError::Unsupported),
                crate::ir::TypeKind::Struct => match cx.field(ty, idx as usize) {
                    None => Err(LowerError::BadIndex),
                    Some(field_ty) => Ok(
                        cx.with_node(
                            Node::AccessField { base: aggregate, field: idx as usize },
                            field_ty,
                        ),
                    ),
                },
                _ => Err(LowerError::UnexpectedType),
            }
        }
    }

    /// A member of an aggregate value. Errors as for the address of a
    /// member, by the type of the value itself.
    pub fn extract_value(&mut self, cx: &mut CodegenCx, aggregate_value: RValue, idx: u64) -> (r:
        Result<RValue, LowerError>)
        requires
            old(cx).wf(),
            old(cx)@.valid_rvalue(aggregate_value),
        ensures
            final(cx).wf(),
            match Builder::spec_extract_value(old(cx)@, aggregate_value, idx) {
                Ok(c) => final(cx)@ == c && r is Ok,
                Err(e) => final(cx)@ == old(cx)@ && r == Err::<RValue, LowerError>(e),
            },
            r matches Ok(v) ==> v.id == final(cx)@.values.len() - 1 && final(cx)@.valid_rvalue(v),
            *final(self) == *old(self),
            old(cx)@.grows_to(final(cx)@),
    {
        if idx > usize::MAX as u64 {
            return Err(LowerError::BadIndex);
        }
        let value_type = cx.val_ty(aggregate_value);
        match cx.kind(value_type) {
            crate::ir::TypeKind::Array { .. } => {
                if idx > i64::MAX as u64 {
                    return Err(LowerError::BadIndex);
                }
                let u64_type = cx.type_uint(64);
                let index = cx.new_rvalue_from_long(u64_type, idx as i64);
                let element = cx.new_array_access(aggregate_value, index);
                Ok(cx.get_address(element))
            },
            crate::ir::TypeKind::Vector { .. } => Err(LowerError::Unsupported),
            crate::ir::TypeKind::Struct => {
                match cx.field_type(value_type, idx as usize) {
                    Some(field_ty) => Ok(
                        cx.access_field(aggregate_value, idx as usize, field_ty).to_rvalue(),
                    ),
                    None => Err(LowerError::BadIndex),
                }
            },
            _ => Err(LowerError::UnexpectedType),
        }
    }

    /// The write of member `idx` of an aggregate: the member as a location,
    /// then the assignment of `value` to it in the builder's block.
    pub open spec fn spec_insert_value(
        cx: CxView,
        at: Block,
        aggregate: RValue,
        value: RValue,
        idx: u64,
    ) -> Result<CxView, LowerError> {
        let ty = cx.type_of(aggregate);
        if idx > usize::MAX {
            Err(LowerError::BadIndex)
        } else {
            match cx.kind(ty) {
                crate::ir::TypeKind::Array { .. } => if idx > i64::MAX {
                    Err(LowerError::BadIndex)
                } else {
                    let c1 = cx.with_node(Node::Int { value: idx as i64 }, Type { id: 10 });
                    let c2 = c1.with_element(aggregate, cx.next_value());
                    Ok(c2.emit(at, Statement::Assign { place: c1.next_place(), value }))
                },
                crate::ir::TypeKind::Vector { .. } => Err(LowerError::Unsupported),
                crate::ir::TypeKind::Struct => match cx.field(ty, idx as usize) {
                    None => Err(LowerError::BadIndex),
                    Some(field_ty) => {
                        let c1 = cx.with_node(
                            Node::AccessField { base: aggregate, field: idx as usize },
                            field_ty,
                        );
                        Ok(c1.emit(at, Statement::Assign { place: cx.next_place(), value }))
                    },
                },
                _ => Err(LowerError::UnexpectedType),
            }
        }
    }

    /// Writes a member of an aggregate in place; the result is the
    /// aggregate. Errors as for reading a member.
    pub fn insert_value(
        &mut self,
        cx: &mut CodegenCx,
        aggregate_value: RValue,
        value: RValue,
        idx: u64,
    ) -> (r: Result<RValue, LowerError>)
        requires
            old(cx).wf(),
            old(self).ready(old(cx)@),
            old(cx)@.valid_rvalue(aggregate_value),
            old(cx)@.valid_rvalue(value),
        ensures
            final(cx).wf(),
            match Builder::spec_insert_value(old(cx)@, old(self).at(), aggregate_value, value, idx) {
                Ok(c) => final(cx)@ == c && r == Ok::<RValue, LowerError>(aggregate_value),
                Err(e) => final(cx)@ == old(cx)@ && r == Err::<RValue, LowerError>(e),
            },
            *final(self) == *old(self),
            final(self).ready(final(cx)@),
            old(cx)@.grows_to(final(cx)@),
    {
        if idx > usize::MAX as u64 {
            return Err(LowerError::BadIndex);
        }
        let value_type = cx.val_ty(aggregate_value);
        let lvalue = match cx.kind(value_type) {
            crate::ir::TypeKind::Array { .. } => {
                if idx > i64::MAX as u64 {
                    return Err(LowerError::BadIndex);
                }
                let u64_type = cx.type_uint(64);
                let index = cx.new_rvalue_from_long(u64_type, idx as i64);
                cx.new_array_access(aggregate_value, index)
            },
            crate::ir::TypeKind::Vector { .. } => {
                return Err(LowerError::Unsupported);
            },
            crate::ir::TypeKind::Struct => {
                match cx.field_type(value_type, idx as usize) {
                    Some(field_ty) => cx.access_field(aggregate_value, idx as usize, field_ty),
                    None => {
                        return Err(LowerError::BadIndex);
                    },
                }
            },
            _ => {
                return Err(LowerError::UnexpectedType);
            },
        };
        cx.add_assignment(self.llbb(), lvalue, value);
        Ok(aggregate_value)
    }
}

} // verus!
