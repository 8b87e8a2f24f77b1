pub mod aggregate;
pub mod json;
pub mod laws;
pub mod providers;
pub mod timestamp;
