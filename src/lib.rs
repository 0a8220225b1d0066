pub mod ast;
pub mod count;
pub mod order;
pub mod recorder;
pub mod visit;
