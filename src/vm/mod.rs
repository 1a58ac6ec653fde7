pub mod address;
pub mod codec;
pub mod compare;
pub mod instruction;
pub mod laws;
pub mod machine;
pub mod machine_model;
pub mod register;

pub use machine::VM;
pub use machine_model::{Exit, FloatKind, FloatOp, Step, Trap};
pub use register::Reg;
