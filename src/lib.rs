//! Linear classifier evaluation: CPU capability detection, strategy
//! selection with scalar fallback, lane planning for vectorised dot
//! products, input shaping and prediction output.

pub mod arch;
pub mod strategy;
pub mod params;
pub mod model;
pub mod cli;
