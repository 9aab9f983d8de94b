pub mod laws;
pub mod stream;
