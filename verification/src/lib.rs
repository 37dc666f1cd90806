use vstd::prelude::*;

pub mod ast;
pub mod check;
pub mod eval;
pub mod equiv;
pub mod list;
pub mod parser;
pub mod pretty;
pub mod repl;
pub mod round_trip;
pub mod strings;
