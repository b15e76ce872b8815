pub mod arrays;
pub mod io;
pub mod objects;
pub mod strings;
pub mod system;
