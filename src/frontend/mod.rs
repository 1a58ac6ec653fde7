pub mod ast;
pub mod error;
pub mod lexer;
pub mod token;
