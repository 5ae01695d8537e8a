pub mod ast;
pub mod cps;
pub mod laws;
pub mod model;
mod nonempty;
