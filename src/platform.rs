use vstd::prelude::*;
use crate::error::ZigError;
use crate::text::same_text;

verus! {

/// The architectures that Zig publishes archives for.
pub open spec fn supported_arch(arch: Seq<char>) -> bool {
    arch == "x86"@ || arch == "x86_64"@ || arch == "aarch64"@
}

/// The operating systems that Zig publishes archives for.
pub open spec fn supported_os(os: Seq<char>) -> bool {
    os == "linux"@ || os == "macos"@ || os == "windows"@
}

/// The index key of a platform: `{arch}-{os}`.
pub open spec fn platform_key(arch: Seq<char>, os: Seq<char>) -> Seq<char> {
    arch + "-"@ + os
}

/// A supported architecture and operating system.
pub struct Platform {
    pub arch: String,
    pub os: String,
}

impl Platform {
    pub open spec fn wf(&self) -> bool {
        supported_arch(self.arch@) && supported_os(self.os@)
    }

    /// The key under which the index lists this platform's archive.
    pub fn key(&self) -> (r: String)
        ensures
            r@ == platform_key(self.arch@, self.os@),
    {
        let mut k = self.arch.clone();
        k.append("-");
        k.append(self.os.as_str());
        k
    }

    /// Whether the archives for this platform are Windows ones.
    pub fn is_windows(&self) -> (r: bool)
        ensures
            r == (self.os@ == "windows"@),
    {
        same_text(self.os.as_str(), "windows")
    }
}

/// Checks the running architecture and operating system against the supported
/// sets; the architecture is checked first.
pub fn resolve_platform(arch: &str, os: &str) -> (r: Result<Platform, ZigError>)
    ensures
        match r {
            Ok(p) => supported_arch(arch@) && supported_os(os@) && p.arch@ == arch@ && p.os@
                == os@,
            Err(ZigError::UnsupportedArch(a)) => !supported_arch(arch@) && a@ == arch@,
            Err(ZigError::UnsupportedOs(o)) => supported_arch(arch@) && !supported_os(os@) && o@
                == os@,
            Err(_) => false,
        },
{
    if !(same_text(arch, "x86") || same_text(arch, "x86_64") || same_text(arch, "aarch64")) {
        return Err(ZigError::UnsupportedArch(String::from_str(arch)));
    }
    if !(same_text(os, "linux") || same_text(os, "macos") || same_text(os, "windows")) {
        return Err(ZigError::UnsupportedOs(String::from_str(os)));
    }
    Ok(Platform { arch: String::from_str(arch), os: String::from_str(os) })
}

} // verus!
