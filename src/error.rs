use vstd::prelude::*;

verus! {

/// Every way in which choosing and planning an installation can fail.
#[derive(Debug)]
pub enum ZigError {
    /// The release index is not a JSON object.
    Parse,
    /// The processor architecture is not one that Zig publishes archives for.
    UnsupportedArch(String),
    /// The operating system is not one that Zig publishes archives for.
    UnsupportedOs(String),
    /// The requested version is not a key of the index; `available` lists the keys.
    VersionNotFound { requested: String, available: Vec<String> },
    /// No key of the index is a semantic version.
    NoValidVersion,
    /// The selected version has no entry in the index.
    EntryNotFound(String),
    /// The selected version has no archive for the platform.
    PlatformNotFound { version: String, platform: String },
    /// The archive's `tarball` field is not a string.
    MalformedUrl,
    /// The download URL does not end in a usable archive file name.
    NoPackageName,
}

} // verus!
