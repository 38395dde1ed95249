//! Intermediate representation of the Nessie language: a typed syntax tree,
//! a stack-machine bytecode container, and a disassembler for it.

pub mod ast;
pub mod chunk;
pub mod disassemble;
pub mod text;
pub mod value;
