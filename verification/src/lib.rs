//! Verified core of a block-device enumerator.
//!
//! The crate normalizes the loosely-typed records that a block-device
//! listing tool reports into one canonical model: device names are resolved
//! to absolute paths, transports are classified into flags, descriptions are
//! assembled from label/vendor/model fields, mountpoints are extracted from a
//! variable-shape child hierarchy, and stable alias paths are attached by
//! resolving symbolic-link targets. The surrounding process and file I/O is
//! left to the embedding program.

pub mod alias;
pub mod describe;
pub mod errors;
pub mod jsontree;
pub mod pipeline;
pub mod normalize;
pub mod device;
pub mod mounts;
pub mod raw;
pub mod resolve;
pub mod text;
