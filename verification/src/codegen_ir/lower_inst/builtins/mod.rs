//! Type checks and emission helpers of the builtin-call lowerings.

pub mod arrays;
pub mod spl;
