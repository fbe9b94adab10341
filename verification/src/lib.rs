//! A small stack-based bytecode virtual machine.
//!
//! A producer assembles a byte buffer of opcodes and little-endian operands
//! ([`buffer::Instructions`]); an [`interpreter::Interpreter`] executes it
//! against a fixed-capacity operand stack, an instruction pointer, a frame
//! pointer and a flag register. Every function is verified against a
//! mathematical model of the machine ([`machine::Machine`]).
//!
//! The machine never panics. A condition that ends a run abruptly is reported
//! as a [`machine::Fault`], and what a program emits is handed to the caller,
//! who owns the output channel.
pub mod word;
pub mod encoding;
pub mod instruction;
pub mod buffer;
pub mod flags;
pub mod stack;
pub mod machine;
pub mod interpreter;
pub mod text;
pub mod listing;
