pub mod assign;
pub mod binops;
pub mod closure;
pub mod constructors;
pub mod for_loop;
pub mod index;
