pub mod cli;
pub mod final_ref;
pub mod funge_dialect;
pub mod interpreter;
pub mod io;
pub mod utils;
pub mod vector;

pub use funge_dialect::FungeDialect;
