//! The verified core of a game engine's scripting: a stack-based bytecode
//! interpreter for compiled script functions, with the tables it works on
//! and the rules that its host needs when it loads what scripts refer to.
//!
//! - [`vm`] is the interpreter; [`machine`] states what it computes, and
//!   [`laws`] what follows from that.
//! - [`instruction`] is the instruction set and its wire format, [`arith`]
//!   the integer operations, [`float`] the host's part in floating-point
//!   instructions.
//! - [`stack`], [`module`] and [`global_context`] are the interpreter's
//!   stack and the tables of a script world.
//! - [`sce_commands`], [`scene`] and [`smp`] are the records and rules of
//!   the scene director and of the loaders.

pub mod arith;
pub mod bytes;
pub mod fault;
pub mod float;
pub mod global_context;
pub mod instruction;
pub mod laws;
pub mod machine;
pub mod module;
pub mod sce_commands;
pub mod scene;
pub mod smp;
pub mod stack;
pub mod vm;
