//! Error taxonomy for the asset pipeline.
//!
//! Declaration errors abort a single declaration before its worker is
//! spawned; resolution, I/O and encoding errors are produced while a worker
//! runs; worker errors are opaque messages surfaced unchanged. Every variant
//! carries the offending attribute name, kind key, path or asset id, so a
//! failure is attributable to one source declaration.

use vstd::prelude::*;

verus! {

/// One failure of the asset pipeline.
#[derive(Debug)]
pub enum AssetError {
    /// A declaration lacks an attribute that its element kind requires.
    MissingAttr { name: String },
    /// A link declaration carries a kind key outside the recognized set.
    UnknownKind { value: String },
    /// A resolved path has no derivable file name.
    MissingFileName { path: String },
    /// A resolved file name has no derivable extension.
    MissingExtension { path: String },
    /// A path could not be canonicalized to an existing file.
    PathResolution { path: String },
    /// A file could not be read or written.
    Io { path: String },
    /// A file that had to be text is not valid UTF-8.
    Encoding { path: String },
    /// An opaque failure inside one worker, surfaced unchanged.
    Worker { message: String },
    /// No placeholder node carries the correlation attribute for this id.
    MissingPlaceholder { id: usize },
}

} // verus!
