//! Resolution of genome-assembly metadata to genome files, and the assembly
//! of an all-pairs distance matrix over the resolved set.

pub mod text;
pub mod model;
pub mod order;
pub mod resolver;
pub mod ingest;
pub mod gate;
pub mod engine;
pub mod matrix;
