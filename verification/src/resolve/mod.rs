pub mod symbols;
