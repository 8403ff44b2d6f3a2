use vstd::prelude::*;
use crate::error::ZigError;
use crate::index::{
    find_archive, find_release, index_read, json_of, versions_of, Archive, Json, Tarball,
    VersionIndex,
};
use crate::layout::{archive_stem, last_segment, plan_for, plan_install, InstallPlan};
use crate::platform::{platform_key, resolve_platform, supported_arch, supported_os};
use crate::versions::{latest_in, select_version, texts};

verus! {

/// The address of the release index.
pub const ZIG_META_URL: &'static str = "https://ziglang.org/download/index.json";

/// The version chosen for the given request: the requested label where it is
/// a key, else the latest semantic version.
pub open spec fn chosen(keys: Seq<Seq<char>>, requested: Option<String>) -> Option<Seq<char>> {
    match requested {
        Some(q) => if keys.contains(q@) {
            Some(q@)
        } else {
            None
        },
        None => latest_in(keys),
    }
}

/// The download URL that the index lists for version `v` on platform `p`.
pub open spec fn listed_url(ix: VersionIndex, v: Seq<char>, p: Seq<char>) -> Option<Seq<char>> {
    match find_release(ix.releases@, v) {
        Some(rel) => match find_archive(rel.archives@, p) {
            Some(Archive { tarball: Tarball::Url(u), .. }) => Some(u@),
            _ => None,
        },
        None => None,
    }
}

/// What choosing the release from the index `ix` gives for the builder `b`, on
/// the platform `arch`/`os` and with install root `root`: the version is chosen
/// first, then the platform is checked, then the archive looked up.
pub open spec fn build_outcome(
    b: ZigBuilder,
    ix: VersionIndex,
    arch: Seq<char>,
    os: Seq<char>,
    root: Seq<char>,
    r: Result<Zig, ZigError>,
) -> bool {
        match chosen(versions_of(ix.releases@), b.version) {
        None => match b.version {
            Some(q) => r matches Err(ZigError::VersionNotFound { requested, available })
                && requested@ == q@ && texts(available@) == versions_of(ix.releases@),
            None => r matches Err(ZigError::NoValidVersion),
        },
        Some(v) => if !supported_arch(arch) {
            r matches Err(ZigError::UnsupportedArch(a)) && a@ == arch
        } else if !supported_os(os) {
            r matches Err(ZigError::UnsupportedOs(o)) && o@ == os
        } else {
            match listed_url(ix, v, platform_key(arch, os)) {
                Some(u) => r matches Ok(z) && z.version@ == v && z.dlurl@ == u && z.arch@
                    == arch && z.os@ == os && z.home@ == root && z.proxy
                    == b.proxy,
                None => match find_release(ix.releases@, v) {
                    Some(rel) => match find_archive(
                        rel.archives@,
                        platform_key(arch, os),
                    ) {
                        Some(Archive { tarball: Tarball::NotText, .. }) => r matches Err(
                            ZigError::MalformedUrl,
                        ),
                        _ => r matches Err(ZigError::PlatformNotFound { version, platform })
                            && version@ == v && platform@ == platform_key(arch, os),
                    },
                    None => r matches Err(ZigError::EntryNotFound(e)) && e@ == v,
                },
            }
        },
    }
}

/// Settings of an installation: an explicit version and a proxy, both optional.
pub struct ZigBuilder {
    pub version: Option<String>,
    pub proxy: Option<String>,
}

/// A release chosen for this platform, ready to download and install.
pub struct Zig {
    pub version: String,
    pub arch: String,
    pub os: String,
    pub dlurl: String,
    /// The install root.
    pub home: String,
    pub proxy: Option<String>,
}

impl ZigBuilder {
    /// No explicit version, no proxy.
    pub fn new() -> (r: ZigBuilder)
        ensures
            r.version is None,
            r.proxy is None,
    {
        ZigBuilder { version: None, proxy: None }
    }

    /// Asks for `version` instead of the latest.
    pub fn with_version(self, version: &str) -> (r: ZigBuilder)
        ensures
            r.version matches Some(v) && v@ == version@,
            r.proxy == self.proxy,
    {
        ZigBuilder { version: Some(String::from_str(version)), proxy: self.proxy }
    }

    /// Sends both requests through `proxy`.
    pub fn with_proxy(self, proxy: &str) -> (r: ZigBuilder)
        ensures
            r.proxy matches Some(p) && p@ == proxy@,
            r.version == self.version,
    {
        ZigBuilder { version: self.version, proxy: Some(String::from_str(proxy)) }
    }

    /// Chooses the release and its archive from the index `ix`, for the
    /// platform `arch`/`os`, to be installed under `root`. The version is chosen
    /// first, then the platform is checked, then the archive looked up.
    pub fn build_from_index(self, ix: &VersionIndex, arch: &str, os: &str, root: &str) -> (r:
        Result<Zig, ZigError>)
        ensures
            build_outcome(self, *ix, arch@, os@, root@, r),
    {
        let keys = ix.versions();
        let version = match &self.version {
            Some(q) => select_version(&keys, Some(q.as_str())),
            None => select_version(&keys, None),
        };
        let version = match version {
            Ok(v) => v,
            Err(e) => return Err(e),
        };
        let platform = match resolve_platform(arch, os) {
            Ok(p) => p,
            Err(e) => return Err(e),
        };
        let key = platform.key();
        let dlurl = match ix.resolve_download_url(version.as_str(), key.as_str()) {
            Ok(u) => u,
            Err(e) => return Err(e),
        };
        Ok(
            Zig {
                version,
                arch: platform.arch,
                os: platform.os,
                dlurl,
                home: String::from_str(root),
                proxy: self.proxy,
            },
        )
    }

    /// Reads the index from its JSON text and chooses the release as
    /// `build_from_index` does; fails with `Parse` where the text is not a JSON
    /// object.
    pub fn build(self, index_text: &str, arch: &str, os: &str, root: &str) -> (r: Result<
        Zig,
        ZigError,
    >)
        ensures
            match json_of(index_text@) {
                Some(Json::Object(ms)) => exists|ix: VersionIndex|
                    #![trigger index_read(ix, Json::Object(ms))]
                    index_read(ix, Json::Object(ms)) && build_outcome(
                        self,
                        ix,
                        arch@,
                        os@,
                        root@,
                        r,
                    ),
                _ => r matches Err(ZigError::Parse),
            },
    {
        let ix = match VersionIndex::from_json(index_text) {
            Ok(ix) => ix,
            Err(e) => return Err(e),
        };
        let ghost b = self;
        let r = self.build_from_index(&ix, arch, os, root);
        assert(build_outcome(b, ix, arch@, os@, root@, r));
        r
    }
}

impl Zig {
    /// Where the archive goes and the launcher that `install` writes, for a
    /// user whose home directory is `home`.
    pub fn install_plan(&self, home: &str) -> (r: Result<InstallPlan, ZigError>)
        ensures
            match r {
                Ok(p) => plan_for(p, self.dlurl@, self.home@, home@, self.os@ == "windows"@)
                    && last_segment(self.dlurl@).len() > 0 && archive_stem(
                    last_segment(self.dlurl@),
                ).len() > 0,
                Err(e) => e is NoPackageName && (last_segment(self.dlurl@).len() == 0
                    || archive_stem(last_segment(self.dlurl@)).len() == 0),
            },
    {
        let windows = crate::text::same_text(self.os.as_str(), "windows");
        plan_install(self.dlurl.as_str(), self.home.as_str(), home, windows)
    }
}

} // verus!
