pub mod lower;
pub mod nodes;
