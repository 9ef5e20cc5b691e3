//! A verified engine for resolving container device requests and computing
//! the runtime-specification modifications that grant access to the
//! requested accelerator devices, following the Container Device Interface
//! naming model.
//!
//! The pipeline: qualified device names are parsed and validated
//! (`names`); the request is extracted from annotations, the mount-encoded
//! list or the environment with precedence, deduplication and a privilege
//! gate (`extract`); the requested names are resolved against loaded
//! specification documents (`registry`) or against a document synthesized
//! from live discovery (`automatic`); and the resulting edits are merged
//! and applied to a copy of the target specification (`edits`, `modifier`).
//! Installation planning for the runtime library lives in `install`.

pub mod errors;
pub mod text;
pub mod names;
pub mod device_spec;
pub mod runtime;
pub mod edits;
pub mod extract;
pub mod registry;
pub mod automatic;
pub mod modifier;
pub mod install;
