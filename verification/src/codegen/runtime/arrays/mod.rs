pub mod array_spaceship;
pub mod int_checked_binops;
pub mod ksort;
