//! Installs a Zig toolchain: reads the release index, picks a release and the
//! archive for the running platform, and plans where the archive is unpacked
//! and which launcher script points at it.
pub mod error;
pub mod index;
pub mod layout;
pub mod platform;
pub mod text;
pub mod versions;
pub mod zig;
