//! Record grammar, parse errors and batch ingestion of a small 2-D shape
//! engine, together with the array tool's argument and diagonal logic.
pub mod text;
pub mod errors;
pub mod record;
pub mod batch;
pub mod number;
pub mod arrays;
