pub mod nodes;
pub mod types;
