pub mod arrays;
pub mod buffers;
pub mod exceptions;
pub mod fibers;
pub mod generators;
pub mod io;
pub mod objects;
pub mod spl;
pub mod strings;
pub mod system;
