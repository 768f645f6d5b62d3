//! A static analysis which shows that the identity of an object never leaves
//! the function that took it out of the object.
//!
//! An object is a value of a struct type with the `key` ability; its first
//! field is its id. Unpacking is the only instruction that yields that id as
//! a value. From there the analysis follows the value through the operand
//! stack and the locals of the function, and rejects every instruction that
//! would hand it on: a return, a write through a reference, a store into a
//! vector or a struct, or a call other than the two that delete the object.

pub mod analysis;
pub mod driver;
pub mod error;
pub mod file_format;
pub mod laws;
pub mod semantics;
pub mod state;
pub mod value;
