pub mod musig;
