//! Turns hardware faults raised inside a protected region into ordinary values.
//!
//! The library holds the fault classification table, the register snapshot
//! layouts and the fault report, with the decisions that the native trampoline
//! makes about what a protected call returns.
pub mod code;
pub mod exception;
pub mod registers;
pub mod trampoline;

pub use code::ExceptionCode;
pub use exception::Exception;
pub use registers::{Architecture, Registers};
