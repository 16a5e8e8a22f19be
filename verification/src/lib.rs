//! A self-extracting bundle tool: it turns a dynamically linked executable
//! and its shared-library closure into one self-running file.
//!
//! A bundle is the running executable's own image with a compressed payload
//! and a fixed-format trailer appended.  The modules here hold the verified
//! logic: the trailer codec, the staging planner, the payload codec, and the
//! launch planner.  File and process work is left to a thin unverified shell
//! that calls into this crate with plain values.

use vstd::prelude::*;

pub mod codec;
pub mod launch;
pub mod paths;
pub mod runtime;
pub mod stage;
pub mod trailer;

verus! {

/// The failure kinds the library distinguishes.
#[derive(Debug, PartialEq, Eq)]
pub enum BundleError {
    /// The target is statically linked or not a recognized executable.
    NotASharedExecutable,
    /// No target binary was named for generation.
    MissingRequiredArgument,
    /// A magic marker was found but the trailer around it is invalid.
    CorruptTrailer,
    /// The extracted `libs/` directory holds no recognized dynamic loader.
    LoaderNotFound,
    /// The child process could not be started; `cause` is the underlying
    /// operating-system error.
    SpawnFailed { cause: String },
    /// The child process ran and exited with a nonzero status.
    ChildNonZeroExit,
    /// The payload could not be decompressed: its bytes are not a
    /// well-formed compressed stream.
    CodecFailed,
}

} // verus!
