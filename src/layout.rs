use vstd::prelude::*;
use crate::error::ZigError;
use crate::text::{ends_with, text_ends_with};

verus! {

/// `base/name`.
pub open spec fn join(base: Seq<char>, name: Seq<char>) -> Seq<char> {
    base + "/"@ + name
}

/// Where the final path segment of `u` starts: just past its last `/`, or 0.
pub open spec fn segment_start(u: Seq<char>) -> int
    decreases u.len(),
{
    if u.len() == 0 {
        0
    } else if u.last() == '/' {
        u.len() as int
    } else {
        segment_start(u.drop_last())
    }
}

/// The final path segment of a URL: what follows its last `/`.
pub open spec fn last_segment(u: Seq<char>) -> Seq<char> {
    u.subrange(segment_start(u), u.len() as int)
}

/// `s` with every trailing copy of `suffix` taken off.
pub open spec fn trim_suffix(s: Seq<char>, suffix: Seq<char>) -> Seq<char>
    decreases s.len(),
{
    if suffix.len() > 0 && ends_with(s, suffix) {
        trim_suffix(s.subrange(0, s.len() - suffix.len()), suffix)
    } else {
        s
    }
}

/// The directory name that an archive file unpacks to.
pub open spec fn archive_stem(name: Seq<char>) -> Seq<char> {
    trim_suffix(name, ".tar.xz"@)
}

/// The install root under a home directory.
pub open spec fn root_of(home: Seq<char>) -> Seq<char> {
    join(home, ".zigup"@)
}

/// The launcher script that runs `binary` with all its arguments.
pub open spec fn launcher(binary: Seq<char>, windows: bool) -> Seq<char> {
    if windows {
        "@echo off\r\n\""@ + binary + "\" %*\r\n"@
    } else {
        "#!/usr/bin/env bash\n"@ + binary + " \"$@\"\n"@
    }
}

/// The file name of the Zig binary.
pub open spec fn binary_name(windows: bool) -> Seq<char> {
    if windows {
        "zig.exe"@
    } else {
        "zig"@
    }
}

/// The file name of the launcher script.
pub open spec fn launcher_name(windows: bool) -> Seq<char> {
    if windows {
        "zig.cmd"@
    } else {
        "zig"@
    }
}

/// The final path segment of `url`.
pub fn package_name(url: &str) -> (r: String)
    ensures
        r@ == last_segment(url@),
{
    let n = url.unicode_len();
    let mut j: usize = n;
    assert(url@.take(n as int) =~= url@);
    while j > 0 && url.get_char(j - 1) != '/'
        invariant
            n == url@.len(),
            j <= n,
            segment_start(url@) == segment_start(url@.take(j as int)),
        decreases j,
    {
        assert(url@.take(j as int).drop_last() =~= url@.take(j - 1));
        j = j - 1;
    }
    String::from_str(url.substring_char(j, n))
}

/// `name` with every trailing `.tar.xz` taken off.
pub fn trim_archive_suffix(name: &str) -> (r: String)
    ensures
        r@ == archive_stem(name@),
{
    let suffix = ".tar.xz";
    proof {
        reveal_strlit(".tar.xz");
    }
    let mut cur: &str = name;
    while text_ends_with(cur, suffix)
        invariant
            suffix@ == ".tar.xz"@,
            suffix@.len() == 7,
            trim_suffix(cur@, suffix@) == archive_stem(name@),
        decreases cur@.len(),
    {
        let n = cur.unicode_len();
        cur = cur.substring_char(0, n - 7);
    }
    String::from_str(cur)
}

/// `base/name`.
pub fn join_path(base: &str, name: &str) -> (r: String)
    ensures
        r@ == join(base@, name@),
{
    let mut p = String::from_str(base);
    p.append("/");
    p.append(name);
    p
}

/// The install root under a home directory: `home/.zigup`.
pub fn install_root(home: &str) -> (r: String)
    ensures
        r@ == root_of(home@),
{
    join_path(home, ".zigup")
}

/// The text of the launcher script for `binary`: a POSIX shell script, or a
/// batch file on Windows.
pub fn launcher_script(binary: &str, windows: bool) -> (r: String)
    ensures
        r@ == launcher(binary@, windows),
{
    if windows {
        let mut s = String::from_str("@echo off\r\n\"");
        s.append(binary);
        s.append("\" %*\r\n");
        s
    } else {
        let mut s = String::from_str("#!/usr/bin/env bash\n");
        s.append(binary);
        s.append(" \"$@\"\n");
        s
    }
}

/// Where each file of an installation goes, and the launcher's text.
pub struct InstallPlan {
    /// The downloaded archive, in the working directory.
    pub archive_file: String,
    /// The directory the archive is unpacked into.
    pub unpack_dir: String,
    /// The Zig binary inside the unpacked archive.
    pub binary: String,
    /// The launcher script, in the home directory's `.cargo/bin`.
    pub launcher_path: String,
    /// The launcher script's text.
    pub script: String,
}

/// Whether `p` is the plan for installing the archive at `url` under the
/// install root `root`, with the launcher under `home`.
pub open spec fn plan_for(
    p: InstallPlan,
    url: Seq<char>,
    root: Seq<char>,
    home: Seq<char>,
    windows: bool,
) -> bool {
    let name = last_segment(url);
    let unpack = join(root, "current"@);
    let binary = join(join(unpack, archive_stem(name)), binary_name(windows));
    &&& p.archive_file@ == name
    &&& p.unpack_dir@ == unpack
    &&& p.binary@ == binary
    &&& p.launcher_path@ == join(join(join(home, ".cargo"@), "bin"@), launcher_name(windows))
    &&& p.script@ == launcher(binary, windows)
}

/// Plans the installation of the archive at `url`. The archive file is named
/// after the URL's final segment and unpacks to a directory named after it
/// without `.tar.xz`; fails with `NoPackageName` where either name is empty.
pub fn plan_install(url: &str, root: &str, home: &str, windows: bool) -> (r: Result<
    InstallPlan,
    ZigError,
>)
    ensures
        match r {
            Ok(p) => plan_for(p, url@, root@, home@, windows) && last_segment(url@).len() > 0
                && archive_stem(last_segment(url@)).len() > 0,
            Err(e) => e is NoPackageName && (last_segment(url@).len() == 0 || archive_stem(
                last_segment(url@),
            ).len() == 0),
        },
{
    let archive_file = package_name(url);
    let stem = trim_archive_suffix(archive_file.as_str());
    if archive_file.unicode_len() == 0 || stem.unicode_len() == 0 {
        return Err(ZigError::NoPackageName);
    }
    let unpack_dir = join_path(root, "current");
    let dir = join_path(unpack_dir.as_str(), stem.as_str());
    let binary = if windows {
        join_path(dir.as_str(), "zig.exe")
    } else {
        join_path(dir.as_str(), "zig")
    };
    let cargo = join_path(home, ".cargo");
    let bin = join_path(cargo.as_str(), "bin");
    let launcher_path = if windows {
        join_path(bin.as_str(), "zig.cmd")
    } else {
        join_path(bin.as_str(), "zig")
    };
    let script = launcher_script(binary.as_str(), windows);
    Ok(InstallPlan { archive_file, unpack_dir, binary, launcher_path, script })
}

/// Installing the same archive twice writes the same launcher, with the same
/// text, at the same place: a second install overwrites the first.
pub proof fn lemma_plan_is_repeatable(
    first: InstallPlan,
    second: InstallPlan,
    url: Seq<char>,
    root: Seq<char>,
    home: Seq<char>,
    windows: bool,
)
    requires
        plan_for(first, url, root, home, windows),
        plan_for(second, url, root, home, windows),
    ensures
        first.launcher_path@ == second.launcher_path@,
        first.script@ == second.script@,
        first.unpack_dir@ == second.unpack_dir@,
        first.archive_file@ == second.archive_file@,
{
}

} // verus!
