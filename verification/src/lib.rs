//! A verified streaming import pipeline: it turns one filesystem layer of a
//! container image into a commit of a content-addressed tree repository.
//!
//! The library holds the logic of the pipeline: structural tar
//! demultiplexing, image reference handling, layer selection, digest
//! formatting and the orchestration decisions.  Process handling and the
//! async plumbing around the library live outside of it and hand the
//! library plain values.

pub mod digest;
pub mod errors;
pub mod gzip;
pub mod orchestrate;
pub mod manifest;
pub mod reference;
pub mod tardemux;
pub mod util;
