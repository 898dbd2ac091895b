//! Detection, status reporting and cleanup planning for the regenerable
//! build output of project build ecosystems.
//!
//! Everything that touches the filesystem or spawns processes is left to the
//! caller: the library is handed what was observed on disk and answers with
//! statuses, cleanup steps and extracted metadata.
use vstd::prelude::*;

pub mod cargo;
pub mod manager;
pub mod manifest;
pub mod mix;
pub mod plan;
pub mod status;
pub mod text;
