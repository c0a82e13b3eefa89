pub mod ast;
pub mod model;
