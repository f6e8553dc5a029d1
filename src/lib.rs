//! A byte filter that removes `//` line comments in one forward pass, with
//! constant extra memory and a one-byte replay slot.

pub mod comments;
pub mod laws;
