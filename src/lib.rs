pub mod abilities;
pub mod command;
pub mod env;
pub mod eval;
pub mod numeral;
pub mod processor;
pub mod reference;
pub mod string;
pub mod types;

pub use string::String;
