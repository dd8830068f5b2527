//! Lowering of Sierra declarations into LLVM IR.
//!
//! A [`compiler::Compiler`] owns one LLVM module under construction together
//! with the registry of the backend types declared so far and, when debug
//! information is wanted, a mirror of that registry made of debug types.
//! Type declarations ([`types`]) extend the registry; libfunc declarations
//! ([`math`], [`libfunc`]) add one function each to the module. Every
//! function is first described as a [`body::Body`], a single block of
//! instructions with one returned value, then emitted by the
//! [`backend::Backend`], which keeps a record of it. What a body computes is
//! defined in [`semantics`]; the calls into LLVM are gathered in [`llvm`].
pub mod backend;
pub mod body;
pub mod compiler;
pub mod debug;
pub mod errors;
pub mod libfunc;
pub mod llvm;
pub mod math;
pub mod program;
pub mod semantics;
pub mod types;
