//! Lowering of an SSA-style instruction stream into a block-and-statement IR.
//!
//! The front end drives a [`Builder`] one instruction at a time; the builder
//! records, in a [`CodegenCx`], the values, slots, blocks and statements that
//! the target code generator is to receive.

pub mod address;
pub mod arith;
pub mod atomics;
pub mod builder;
pub mod bulk;
pub mod calls;
pub mod casts;
pub mod context;
pub mod control;
pub mod ir;
pub mod kinds;
pub mod laws;
pub mod layout;
pub mod memory;
pub mod model;
pub mod names;
pub mod operand;
pub mod repeat;
pub mod repeat_law;
pub mod semantics;
pub mod unsupported;
pub mod values;

pub use builder::Builder;
pub use context::CodegenCx;
