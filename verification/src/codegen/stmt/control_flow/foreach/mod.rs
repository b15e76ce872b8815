pub mod iterator;
