pub mod control_flow;
