pub mod class_exists;
