pub mod getmypid;
pub mod memory_usage;
