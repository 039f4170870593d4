//! A small backend that lowers a three-address intermediate representation,
//! built through an imperative builder, to x86-64 assembly text in NASM's
//! syntax.
pub mod text;
pub mod register;
pub mod stack;
pub mod location;
pub mod instruction;
pub mod block;
pub mod function;
pub mod module;
pub mod laws;

pub use block::{Block, BuildError};
pub use function::Function;
pub use location::ValueRef;
pub use module::Module;
pub use register::{Register, RegisterAlloc};
pub use stack::StackAlloc;
