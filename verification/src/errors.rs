//! The error kinds that abort a whole enumeration call. Missing or malformed
//! fields inside one device record never raise these: each field access has
//! a default instead.

use vstd::prelude::*;

verus! {

#[derive(Debug)]
pub enum DriveError {
    /// The external listing tool exited with a non-zero code.
    ProcessExit { tool: String, code: i32 },
    /// The external listing tool wrote to its error stream.
    ProcessStderr { tool: String, stderr: String },
    /// The tool's structured output was malformed.
    Parse,
    /// Listing the alias directory or reading one of its links failed.
    Filesystem { message: String },
    /// A path component was not representable as text.
    PathEncoding,
}

} // verus!
