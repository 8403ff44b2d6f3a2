use vstd::prelude::*;
use crate::error::ZigError;
use crate::text::same_text;
use crate::versions::texts;

verus! {

#[verifier::external_type_specification]
#[verifier::external_body]
pub struct ExJsonValue(serde_json::Value);

/// A JSON value as far as the index is read: an object with its members in
/// order, a string, or anything else.
pub enum Json {
    Object(Vec<(String, Json)>),
    Text(String),
    Other,
}

/// The document that JSON text holds, `None` where the text is not JSON.
pub uninterp spec fn json_of(text: Seq<char>) -> Option<Json>;

/// Relies on `serde_json::from_str`: the document the text holds, or `None`
/// where it is not JSON; the document is read as `mirror` reads it.
#[verifier::external_body]
fn parse_document(text: &str) -> (r: Option<Json>)
    ensures
        r == json_of(text@),
{
    serde_json::from_str::<serde_json::Value>(text).ok().as_ref().map(mirror)
}

/// Relies on the variants of `serde_json::Value`: an object becomes its members
/// in `serde_json::Map`'s order, a string its text, one for one.
#[verifier::external_body]
fn mirror(v: &serde_json::Value) -> (r: Json) {
    match v {
        serde_json::Value::Object(m) => Json::Object(
            m.iter().map(|(k, x)| (k.clone(), mirror(x))).collect(),
        ),
        serde_json::Value::String(t) => Json::Text(t.clone()),
        _ => Json::Other,
    }
}

/// The value of the first member named `key`.
pub open spec fn find_member(ms: Seq<(String, Json)>, key: Seq<char>) -> Option<Json>
    decreases ms.len(),
{
    if ms.len() == 0 {
        None
    } else if ms[0].0@ == key {
        Some(ms[0].1)
    } else {
        find_member(ms.drop_first(), key)
    }
}

/// Whether `t` is what a platform's `entry` holds under `tarball`.
pub open spec fn tarball_read(t: Tarball, entry: Json) -> bool {
    match entry {
        Json::Object(ms) => match find_member(ms@, "tarball"@) {
            Some(Json::Text(u)) => t matches Tarball::Url(x) && x@ == u@,
            Some(_) => t is NotText,
            None => t is Missing,
        },
        _ => t is Missing,
    }
}

/// Whether `a` lists, in order, each member of a release's `entry` with what it
/// holds under `tarball`; an entry that is not an object lists none.
pub open spec fn archives_read(a: Seq<Archive>, entry: Json) -> bool {
    match entry {
        Json::Object(ms) => a.len() == ms@.len() && forall|i: int|
            0 <= i < a.len() ==> (#[trigger] a[i]).platform@ == ms@[i].0@ && tarball_read(
                a[i].tarball,
                ms@[i].1,
            ),
        _ => a.len() == 0,
    }
}

/// Whether `ix` lists, in order, each member of the object `doc` as a release.
pub open spec fn index_read(ix: VersionIndex, doc: Json) -> bool {
    match doc {
        Json::Object(ms) => ix.releases@.len() == ms@.len() && forall|i: int|
            0 <= i < ms@.len() ==> (#[trigger] ix.releases@[i]).version@ == ms@[i].0@
                && archives_read(ix.releases@[i].archives@, ms@[i].1),
        _ => false,
    }
}

/// What an archive entry holds under `tarball`.
pub enum Tarball {
    /// The entry is not an object, or has no `tarball` member.
    Missing,
    /// The `tarball` member is not a string.
    NotText,
    /// The download URL.
    Url(String),
}

/// One platform's archive of a release.
pub struct Archive {
    pub platform: String,
    pub tarball: Tarball,
}

/// One release of the index: its version label and its archives by platform.
pub struct Release {
    pub version: String,
    pub archives: Vec<Archive>,
}

/// The release index: each version label with the archives listed under it.
pub struct VersionIndex {
    pub releases: Vec<Release>,
}

/// The version labels of the releases.
pub open spec fn versions_of(rs: Seq<Release>) -> Seq<Seq<char>> {
    rs.map_values(|x: Release| x.version@)
}

/// The first release labelled `v`.
pub open spec fn find_release(rs: Seq<Release>, v: Seq<char>) -> Option<Release>
    decreases rs.len(),
{
    if rs.len() == 0 {
        None
    } else if rs[0].version@ == v {
        Some(rs[0])
    } else {
        find_release(rs.drop_first(), v)
    }
}

/// The first archive for platform `p`.
pub open spec fn find_archive(a: Seq<Archive>, p: Seq<char>) -> Option<Archive>
    decreases a.len(),
{
    if a.len() == 0 {
        None
    } else if a[0].platform@ == p {
        Some(a[0])
    } else {
        find_archive(a.drop_first(), p)
    }
}

impl VersionIndex {
    /// Reads the index from the document that lists the releases; fails with
    /// `Parse` where it is not an object.
    pub fn from_document(doc: &Json) -> (r: Result<VersionIndex, ZigError>)
        ensures
            match *doc {
                Json::Object(_) => r matches Ok(ix) && index_read(ix, *doc),
                _ => r matches Err(ZigError::Parse),
            },
    {
        let members = match doc {
            Json::Object(m) => m,
            _ => return Err(ZigError::Parse),
        };
        let mut releases: Vec<Release> = Vec::new();
        let mut i: usize = 0;
        while i < members.len()
            invariant
                *doc == Json::Object(*members),
                i <= members.len(),
                releases@.len() == i,
                forall|j: int|
                    0 <= j < i ==> (#[trigger] releases@[j]).version@ == members@[j].0@
                        && archives_read(releases@[j].archives@, members@[j].1),
            decreases members.len() - i,
        {
            let archives = read_archives(&members[i].1);
            releases.push(Release { version: members[i].0.clone(), archives });
            i = i + 1;
        }
        Ok(VersionIndex { releases })
    }

    /// Reads the index from the JSON text that lists the releases; fails with
    /// `Parse` where the text is not JSON or not an object.
    pub fn from_json(text: &str) -> (r: Result<VersionIndex, ZigError>)
        ensures
            match json_of(text@) {
                Some(Json::Object(ms)) => r matches Ok(ix) && index_read(ix, Json::Object(ms)),
                _ => r matches Err(ZigError::Parse),
            },
    {
        match parse_document(text) {
            Some(doc) => VersionIndex::from_document(&doc),
            None => Err(ZigError::Parse),
        }
    }

    /// The version labels, in the index's order.
    pub fn versions(&self) -> (r: Vec<String>)
        ensures
            texts(r@) == versions_of(self.releases@),
    {
        let mut out: Vec<String> = Vec::new();
        let mut i: usize = 0;
        while i < self.releases.len()
            invariant
                i <= self.releases@.len(),
                out@.len() == i,
                forall|j: int| 0 <= j < i ==> out@[j]@ == self.releases@[j].version@,
            decreases self.releases@.len() - i,
        {
            out.push(self.releases[i].version.clone());
            i = i + 1;
        }
        assert(texts(out@) =~= versions_of(self.releases@));
        out
    }

    /// The download URL of the archive for `platform` under release `version`.
    pub fn resolve_download_url(&self, version: &str, platform: &str) -> (r: Result<
        String,
        ZigError,
    >)
        ensures
            match find_release(self.releases@, version@) {
                None => match r {
                    Err(ZigError::EntryNotFound(v)) => v@ == version@,
                    _ => false,
                },
                Some(rel) => match find_archive(rel.archives@, platform@) {
                    Some(Archive { tarball: Tarball::Url(u), .. }) => match r {
                        Ok(x) => x@ == u@,
                        _ => false,
                    },
                    Some(Archive { tarball: Tarball::NotText, .. }) => r matches Err(
                        ZigError::MalformedUrl,
                    ),
                    _ => match r {
                        Err(ZigError::PlatformNotFound { version: v, platform: p }) => v@
                            == version@ && p@ == platform@,
                        _ => false,
                    },
                },
            },
    {
        let mut i: usize = 0;
        assert(self.releases@.skip(0) =~= self.releases@);
        while i < self.releases.len()
            invariant
                i <= self.releases@.len(),
                find_release(self.releases@, version@) == find_release(
                    self.releases@.skip(i as int),
                    version@,
                ),
            decreases self.releases@.len() - i,
        {
            assert(self.releases@.skip(i as int).drop_first() =~= self.releases@.skip(i + 1));
            if same_text(self.releases[i].version.as_str(), version) {
                return lookup_archive(&self.releases[i].archives, version, platform);
            }
            i = i + 1;
        }
        Err(ZigError::EntryNotFound(String::from_str(version)))
    }
}

/// The archive lookup within one release.
fn lookup_archive(archives: &Vec<Archive>, version: &str, platform: &str) -> (r: Result<
    String,
    ZigError,
>)
    ensures
        match find_archive(archives@, platform@) {
            Some(Archive { tarball: Tarball::Url(u), .. }) => match r {
                Ok(x) => x@ == u@,
                _ => false,
            },
            Some(Archive { tarball: Tarball::NotText, .. }) => r matches Err(
                ZigError::MalformedUrl,
            ),
            _ => match r {
                Err(ZigError::PlatformNotFound { version: v, platform: p }) => v@ == version@ && p@
                    == platform@,
                _ => false,
            },
        },
{
    let mut i: usize = 0;
    assert(archives@.skip(0) =~= archives@);
    while i < archives.len()
        invariant
            i <= archives@.len(),
            find_archive(archives@, platform@) == find_archive(archives@.skip(i as int), platform@),
        decreases archives@.len() - i,
    {
        assert(archives@.skip(i as int).drop_first() =~= archives@.skip(i + 1));
        if same_text(archives[i].platform.as_str(), platform) {
            match &archives[i].tarball {
                Tarball::Url(u) => return Ok(u.clone()),
                Tarball::NotText => return Err(ZigError::MalformedUrl),
                Tarball::Missing => {},
            }
            return Err(
                ZigError::PlatformNotFound {
                    version: String::from_str(version),
                    platform: String::from_str(platform),
                },
            );
        }
        i = i + 1;
    }
    Err(
        ZigError::PlatformNotFound {
            version: String::from_str(version),
            platform: String::from_str(platform),
        },
    )
}

/// The archives listed under one release: for each member of the entry, what
/// it holds under `tarball`. An entry that is not an object lists none.
fn read_archives(entry: &Json) -> (r: Vec<Archive>)
    ensures
        archives_read(r@, *entry),
{
    let members = match entry {
        Json::Object(m) => m,
        _ => return Vec::new(),
    };
    let mut out: Vec<Archive> = Vec::new();
    let mut i: usize = 0;
    while i < members.len()
        invariant
            *entry == Json::Object(*members),
            i <= members.len(),
            out@.len() == i,
            forall|j: int|
                0 <= j < i ==> (#[trigger] out@[j]).platform@ == members@[j].0@ && tarball_read(
                    out@[j].tarball,
                    members@[j].1,
                ),
        decreases members.len() - i,
    {
        let tarball = tarball_of(&members[i].1);
        out.push(Archive { platform: members[i].0.clone(), tarball });
        i = i + 1;
    }
    out
}

/// What a platform's entry holds under `tarball`.
fn tarball_of(entry: &Json) -> (r: Tarball)
    ensures
        tarball_read(r, *entry),
{
    let members = match entry {
        Json::Object(m) => m,
        _ => return Tarball::Missing,
    };
    let key = "tarball";
    let mut i: usize = 0;
    assert(members@.skip(0) =~= members@);
    while i < members.len()
        invariant
            *entry == Json::Object(*members),
            key@ == "tarball"@,
            i <= members@.len(),
            find_member(members@, key@) == find_member(members@.skip(i as int), key@),
        decreases members@.len() - i,
    {
        assert(members@.skip(i as int).drop_first() =~= members@.skip(i + 1));
        if same_text(members[i].0.as_str(), key) {
            return match &members[i].1 {
                Json::Text(u) => Tarball::Url(u.clone()),
                _ => Tarball::NotText,
            };
        }
        i = i + 1;
    }
    Tarball::Missing
}

} // verus!
