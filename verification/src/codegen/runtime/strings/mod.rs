pub mod random_bytes;
pub mod str_spaceship;
pub mod strtr;
