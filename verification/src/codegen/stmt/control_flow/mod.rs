pub mod foreach;
