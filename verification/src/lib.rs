//! Resolve which variable source of a project applies, merge the variables it
//! yields, and describe the child command line that runs with them injected.

pub mod environment;
pub mod launcher;
pub mod model;
pub mod pipeline;
pub mod resolver;
pub mod variables;
