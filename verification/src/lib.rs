pub mod vehicle;
