//! A stack-based virtual machine and the loader of its binary module format.
//!
//! A module is a constant pool and a table of functions; function 0 is the
//! entry point. [`program::Bytecode::from_bytes`] decodes one from bytes, and
//! a [`machine::VirtualMachine`] executes it one instruction at a time.
//!
//! Numbers are carried as IEEE-754 binary64 bit patterns. The machine decides
//! everything about them that integers can decide (equality, negation); for
//! the five arithmetic operations, and for printing, a step hands the host
//! what it needs and the host hands back the result.
//!
//! - [`format`] states the module format and proves that decoding undoes
//!   encoding;
//! - [`reader`] and [`loader`] decode;
//! - [`opcode`], [`value`], [`program`] and [`frame`] hold the data;
//! - [`semantics`] states what a step does, [`machine`] does it, and
//!   [`theorems`] proves what follows.

pub mod error;
pub mod format;
pub mod frame;
pub mod loader;
pub mod machine;
pub mod opcode;
pub mod program;
pub mod reader;
pub mod semantics;
pub mod theorems;
pub mod value;
