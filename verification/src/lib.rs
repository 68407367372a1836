pub mod detail;
pub mod query;
pub mod render;
pub mod style;
pub mod text;
