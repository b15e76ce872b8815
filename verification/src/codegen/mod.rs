pub mod machine;
pub mod platform;
pub mod text;
pub mod emit;
pub mod abi;
pub mod runtime;
pub mod sentinels;
pub mod context;
pub mod stmt;
