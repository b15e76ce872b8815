//! Assembly-emitting pieces of the elephc PHP compiler back end: the runtime
//! helper emitters, the output-buffering helpers, the in-band sentinels and the
//! small decision procedures of the IR backend, each with a contract that states
//! the exact listing it appends or the value it computes.

pub mod codegen;
pub mod codegen_support;
pub mod codegen_ir;
pub mod explode_prelude;
pub mod types;
