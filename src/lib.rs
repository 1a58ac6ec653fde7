//! A toy-language toolchain: a lexer, a parser for function declarations, a
//! buffer for emitted bytecode, and a register-based virtual machine whose
//! every step is proved against a mathematical model of the instruction set.

pub mod codegen;
pub mod compiler;
pub mod frontend;
pub mod text;
pub mod vm;
