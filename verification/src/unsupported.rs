//! The instructions that have no lowering: exception handling, vector
//! operations, stack allocation of a size known only at run time, and a few
//! more. Each reports that, and changes nothing.

use crate::builder::Builder;
use crate::ir::{Block, RValue, Type};
use crate::kinds::LowerError;
use vstd::prelude::*;

verus! {

impl Builder {
    /// Calls a function that may unwind, with a block for each way it ends.
    /// Not supported: always `Err(Unsupported)`.
    pub fn invoke(
        &mut self,
        func: RValue,
        args: &Vec<RValue>,
        then_block: Block,
        catch_block: Block,
    ) -> (r: Result<RValue, LowerError>)
        ensures
            r == Err::<RValue, LowerError>(LowerError::Unsupported),
            *final(self) == *old(self),
    {
        Err(LowerError::Unsupported)
    }

    /// The sum of two floating-point values under relaxed rules.
    /// Not supported: always `Err(Unsupported)`.
    pub fn fadd_fast(&mut self, lhs: RValue, rhs: RValue) -> (r: Result<RValue, LowerError>)
        ensures
            r == Err::<RValue, LowerError>(LowerError::Unsupported),
            *final(self) == *old(self),
    {
        Err(LowerError::Unsupported)
    }

    /// The difference of two floating-point values under relaxed rules.
    /// Not supported: always `Err(Unsupported)`.
    pub fn fsub_fast(&mut self, lhs: RValue, rhs: RValue) -> (r: Result<RValue, LowerError>)
        ensures
            r == Err::<RValue, LowerError>(LowerError::Unsupported),
            *final(self) == *old(self),
    {
        Err(LowerError::Unsupported)
    }

    /// The product of two floating-point values under relaxed rules.
    /// Not supported: always `Err(Unsupported)`.
    pub fn fmul_fast(&mut self, lhs: RValue, rhs: RValue) -> (r: Result<RValue, LowerError>)
        ensures
            r == Err::<RValue, LowerError>(LowerError::Unsupported),
            *final(self) == *old(self),
    {
        Err(LowerError::Unsupported)
    }

    /// The quotient of two floating-point values under relaxed rules.
    /// Not supported: always `Err(Unsupported)`.
    pub fn fdiv_fast(&mut self, lhs: RValue, rhs: RValue) -> (r: Result<RValue, LowerError>)
        ensures
            r == Err::<RValue, LowerError>(LowerError::Unsupported),
            *final(self) == *old(self),
    {
        Err(LowerError::Unsupported)
    }

    /// The remainder of two floating-point values under relaxed rules.
    /// Not supported: always `Err(Unsupported)`.
    pub fn frem_fast(&mut self, lhs: RValue, rhs: RValue) -> (r: Result<RValue, LowerError>)
        ensures
            r == Err::<RValue, LowerError>(LowerError::Unsupported),
            *final(self) == *old(self),
    {
        Err(LowerError::Unsupported)
    }

    /// A stack slot whose size is known only when the code runs.
    /// Not supported: always `Err(Unsupported)`.
    pub fn dynamic_alloca(&mut self, ty: Type, align: u64) -> (r: Result<RValue, LowerError>)
        ensures
            r == Err::<RValue, LowerError>(LowerError::Unsupported),
            *final(self) == *old(self),
    {
        Err(LowerError::Unsupported)
    }

    /// A stack array whose length is known only when the code runs.
    /// Not supported: always `Err(Unsupported)`.
    pub fn array_alloca(
        &mut self,
        ty: Type,
        len: RValue,
        align: u64,
    ) -> (r: Result<RValue, LowerError>)
        ensures
            r == Err::<RValue, LowerError>(LowerError::Unsupported),
            *final(self) == *old(self),
    {
        Err(LowerError::Unsupported)
    }

    /// An integer widened with its sign.
    /// Not supported: always `Err(Unsupported)`.
    pub fn sext(&mut self, val: RValue, dest_ty: Type) -> (r: Result<RValue, LowerError>)
        ensures
            r == Err::<RValue, LowerError>(LowerError::Unsupported),
            *final(self) == *old(self),
    {
        Err(LowerError::Unsupported)
    }

    /// The next argument of a variable argument list.
    /// Not supported: always `Err(Unsupported)`.
    pub fn va_arg(&mut self, list: RValue, ty: Type) -> (r: Result<RValue, LowerError>)
        ensures
            r == Err::<RValue, LowerError>(LowerError::Unsupported),
            *final(self) == *old(self),
    {
        Err(LowerError::Unsupported)
    }

    /// An element of a vector.
    /// Not supported: always `Err(Unsupported)`.
    pub fn extract_element(&mut self, vec: RValue, idx: RValue) -> (r: Result<RValue, LowerError>)
        ensures
            r == Err::<RValue, LowerError>(LowerError::Unsupported),
            *final(self) == *old(self),
    {
        Err(LowerError::Unsupported)
    }

    /// A vector with one value in every element.
    /// Not supported: always `Err(Unsupported)`.
    pub fn vector_splat(&mut self, num_elts: usize, elt: RValue) -> (r: Result<RValue, LowerError>)
        ensures
            r == Err::<RValue, LowerError>(LowerError::Unsupported),
            *final(self) == *old(self),
    {
        Err(LowerError::Unsupported)
    }

    /// The entry of an exception handler.
    /// Not supported: always `Err(Unsupported)`.
    pub fn landing_pad(
        &mut self,
        ty: Type,
        pers_fn: RValue,
        num_clauses: usize,
    ) -> (r: Result<RValue, LowerError>)
        ensures
            r == Err::<RValue, LowerError>(LowerError::Unsupported),
            *final(self) == *old(self),
    {
        Err(LowerError::Unsupported)
    }

    /// Marks an exception handler as a cleanup.
    /// Not supported: always `Err(Unsupported)`.
    pub fn set_cleanup(&mut self, landing_pad: RValue) -> (r: Result<(), LowerError>)
        ensures
            r == Err::<(), LowerError>(LowerError::Unsupported),
            *final(self) == *old(self),
    {
        Err(LowerError::Unsupported)
    }

    /// Resumes the unwinding of an exception.
    /// Not supported: always `Err(Unsupported)`.
    pub fn resume(&mut self, exn: RValue) -> (r: Result<RValue, LowerError>)
        ensures
            r == Err::<RValue, LowerError>(LowerError::Unsupported),
            *final(self) == *old(self),
    {
        Err(LowerError::Unsupported)
    }

    /// The entry of a cleanup handler.
    /// Not supported: always `Err(Unsupported)`.
    pub fn cleanup_pad(
        &mut self,
        parent: Option<RValue>,
        args: &Vec<RValue>,
    ) -> (r: Result<(), LowerError>)
        ensures
            r == Err::<(), LowerError>(LowerError::Unsupported),
            *final(self) == *old(self),
    {
        Err(LowerError::Unsupported)
    }

    /// The return from a cleanup handler.
    /// Not supported: always `Err(Unsupported)`.
    pub fn cleanup_ret(&mut self, unwind: Option<Block>) -> (r: Result<RValue, LowerError>)
        ensures
            r == Err::<RValue, LowerError>(LowerError::Unsupported),
            *final(self) == *old(self),
    {
        Err(LowerError::Unsupported)
    }

    /// The entry of a catch handler.
    /// Not supported: always `Err(Unsupported)`.
    pub fn catch_pad(&mut self, parent: RValue, args: &Vec<RValue>) -> (r: Result<(), LowerError>)
        ensures
            r == Err::<(), LowerError>(LowerError::Unsupported),
            *final(self) == *old(self),
    {
        Err(LowerError::Unsupported)
    }

    /// The dispatch among catch handlers.
    /// Not supported: always `Err(Unsupported)`.
    pub fn catch_switch(
        &mut self,
        parent: Option<RValue>,
        unwind: Option<Block>,
        num_handlers: usize,
    ) -> (r: Result<RValue, LowerError>)
        ensures
            r == Err::<RValue, LowerError>(LowerError::Unsupported),
            *final(self) == *old(self),
    {
        Err(LowerError::Unsupported)
    }

    /// Adds a handler to a dispatch among catch handlers.
    /// Not supported: always `Err(Unsupported)`.
    pub fn add_handler(
        &mut self,
        catch_switch: RValue,
        handler: Block,
    ) -> (r: Result<(), LowerError>)
        ensures
            r == Err::<(), LowerError>(LowerError::Unsupported),
            *final(self) == *old(self),
    {
        Err(LowerError::Unsupported)
    }

    /// Sets the function that drives unwinding.
    /// Not supported: always `Err(Unsupported)`.
    pub fn set_personality_fn(&mut self, personality: RValue) -> (r: Result<(), LowerError>)
        ensures
            r == Err::<(), LowerError>(LowerError::Unsupported),
            *final(self) == *old(self),
    {
        Err(LowerError::Unsupported)
    }

    /// Removes a block from its function.
    /// Not supported: always `Err(Unsupported)`.
    pub fn delete_basic_block(&mut self, bb: Block) -> (r: Result<(), LowerError>)
        ensures
            r == Err::<(), LowerError>(LowerError::Unsupported),
            *final(self) == *old(self),
    {
        Err(LowerError::Unsupported)
    }

    /// Forbids the inlining of a call.
    /// Not supported: always `Err(Unsupported)`.
    pub fn do_not_inline(&mut self, llret: RValue) -> (r: Result<(), LowerError>)
        ensures
            r == Err::<(), LowerError>(LowerError::Unsupported),
            *final(self) == *old(self),
    {
        Err(LowerError::Unsupported)
    }

    /// The address of a global variable, by its number.
    /// Not supported: always `Err(Unsupported)`.
    pub fn get_static(&mut self, def_id: u64) -> (r: Result<RValue, LowerError>)
        ensures
            r == Err::<RValue, LowerError>(LowerError::Unsupported),
            *final(self) == *old(self),
    {
        Err(LowerError::Unsupported)
    }
}

} // verus!
