//! A runtime-reconfigurable logging core: a process-wide sink model whose
//! verbosity level, console duplication and file-rotation policy can be
//! swapped while records keep flowing.

pub mod filter;
pub mod level;
pub mod rotation;
pub mod service;

pub use level::Level;
pub use rotation::RotationPolicy;
pub use service::{EmitOutcome, LogError, Logger};
