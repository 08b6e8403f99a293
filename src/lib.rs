pub mod arith;
pub mod degree;
pub mod field;
pub mod frame;
pub mod trace;
pub mod text;
pub mod nodes;
