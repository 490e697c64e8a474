//! What the library shares with the LabVIEW run-time: references, status
//! codes and the errors of that boundary.

pub mod errors;
pub mod memory;
pub mod sync;
pub mod types;
