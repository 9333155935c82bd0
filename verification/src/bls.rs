pub mod common;
pub mod simple;
