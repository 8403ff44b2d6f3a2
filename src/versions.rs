use vstd::prelude::*;
use crate::error::ZigError;
use crate::text::same_text;

verus! {

/// Whether semver accepts the text as a semantic version.
pub uninterp spec fn semver_valid(s: Seq<char>) -> bool;

/// Whether the first semantic version orders before the second under semver.
pub uninterp spec fn semver_less(a: Seq<char>, b: Seq<char>) -> bool;

/// Relies on `semver::Version::parse`: whether it accepts the text.
#[verifier::external_body]
fn is_semver(s: &str) -> (r: bool)
    ensures
        r == semver_valid(s@),
{
    semver::Version::parse(s).is_ok()
}

/// Relies on `semver::Version::parse` and the ordering `semver::Version` derives
/// (major, minor, patch, pre-release, build): whether `a` orders before `b`.
#[verifier::external_body]
fn semver_precedes(a: &str, b: &str) -> (r: bool)
    requires
        semver_valid(a@),
        semver_valid(b@),
    ensures
        r == semver_less(a@, b@),
{
    semver::Version::parse(a).ok() < semver::Version::parse(b).ok()
}

/// The characters of each string.
pub open spec fn texts(v: Seq<String>) -> Seq<Seq<char>> {
    v.map_values(|s: String| s@)
}

/// The latest semantic version among `keys`, scanning left to right: a valid
/// key replaces the best so far unless it orders before it, so among keys of
/// equal precedence the rightmost wins.
pub open spec fn latest_in(keys: Seq<Seq<char>>) -> Option<Seq<char>>
    decreases keys.len(),
{
    if keys.len() == 0 {
        None
    } else {
        let prev = latest_in(keys.drop_last());
        let k = keys.last();
        if !semver_valid(k) {
            prev
        } else {
            match prev {
                None => Some(k),
                Some(b) => if semver_less(k, b) {
                    Some(b)
                } else {
                    Some(k)
                },
            }
        }
    }
}

/// The latest semantic version among `keys`, or `None` where no key is one.
pub fn latest_version(keys: &Vec<String>) -> (r: Option<String>)
    ensures
        match r {
            Some(v) => latest_in(texts(keys@)) == Some(v@),
            None => latest_in(texts(keys@)) is None,
        },
{
    let mut best: Option<String> = None;
    let mut i: usize = 0;
    while i < keys.len()
        invariant
            i <= keys.len(),
            best matches Some(b) ==> semver_valid(b@),
            match best {
                Some(b) => latest_in(texts(keys@).take(i as int)) == Some(b@),
                None => latest_in(texts(keys@).take(i as int)) is None,
            },
        decreases keys.len() - i,
    {
        let k = &keys[i];
        proof {
            assert(texts(keys@).take(i + 1).drop_last() =~= texts(keys@).take(i as int));
            assert(texts(keys@).take(i + 1).last() == k@);
        }
        if is_semver(k.as_str()) {
            match &best {
                None => {
                    best = Some(k.clone());
                },
                Some(b) => {
                    if !semver_precedes(k.as_str(), b.as_str()) {
                        best = Some(k.clone());
                    }
                },
            }
        }
        i = i + 1;
    }
    assert(texts(keys@).take(keys@.len() as int) =~= texts(keys@));
    best
}

/// Whether `keys` holds `q`.
pub fn has_key(keys: &Vec<String>, q: &str) -> (r: bool)
    ensures
        r == texts(keys@).contains(q@),
{
    let mut i: usize = 0;
    while i < keys.len()
        invariant
            i <= keys.len(),
            forall|j: int| 0 <= j < i ==> keys@[j]@ != q@,
        decreases keys.len() - i,
    {
        if same_text(keys[i].as_str(), q) {
            assert(texts(keys@)[i as int] == q@);
            return true;
        }
        i = i + 1;
    }
    assert forall|j: int| 0 <= j < texts(keys@).len() implies texts(keys@)[j] != q@ by {}
    false
}

/// A copy of each string, in order.
pub fn copy_all(v: &Vec<String>) -> (r: Vec<String>)
    ensures
        texts(r@) == texts(v@),
{
    let mut out: Vec<String> = Vec::new();
    let mut i: usize = 0;
    while i < v.len()
        invariant
            i <= v.len(),
            out@.len() == i,
            forall|j: int| 0 <= j < i ==> out@[j]@ == v@[j]@,
        decreases v.len() - i,
    {
        out.push(v[i].clone());
        i = i + 1;
    }
    assert(texts(out@) =~= texts(v@));
    out
}

/// Picks the version to install from the index keys: the requested one, which
/// must be a key, or else the latest semantic version among them.
pub fn select_version(keys: &Vec<String>, requested: Option<&str>) -> (r: Result<String, ZigError>)
    ensures
        match requested {
            Some(q) => match r {
                Ok(v) => v@ == q@ && texts(keys@).contains(q@),
                Err(ZigError::VersionNotFound { requested, available }) => requested@ == q@
                    && texts(available@) == texts(keys@) && !texts(keys@).contains(q@),
                Err(_) => false,
            },
            None => match r {
                Ok(v) => latest_in(texts(keys@)) == Some(v@),
                Err(ZigError::NoValidVersion) => latest_in(texts(keys@)) is None,
                Err(_) => false,
            },
        },
{
    match requested {
        Some(q) => {
            if has_key(keys, q) {
                Ok(String::from_str(q))
            } else {
                Err(ZigError::VersionNotFound { requested: String::from_str(q), available: copy_all(keys) })
            }
        },
        None => match latest_version(keys) {
            Some(v) => Ok(v),
            None => Err(ZigError::NoValidVersion),
        },
    }
}

/// The latest version is one of the keys and is a semantic version; there is
/// none exactly where no key is a semantic version.
pub proof fn lemma_latest_is_valid_key(keys: Seq<Seq<char>>)
    ensures
        match latest_in(keys) {
            Some(v) => keys.contains(v) && semver_valid(v),
            None => forall|k: Seq<char>| keys.contains(k) ==> !semver_valid(k),
        },
    decreases keys.len(),
{
    if keys.len() > 0 {
        let prefix = keys.drop_last();
        lemma_latest_is_valid_key(prefix);
        assert(keys == prefix.push(keys.last()));
        assert forall|k: Seq<char>| prefix.contains(k) implies keys.contains(k) by {
            let j = choose|j: int| 0 <= j < prefix.len() && prefix[j] == k;
            assert(keys[j] == k);
        }
        assert(keys[keys.len() - 1] == keys.last());
        if latest_in(keys) is None {
            assert forall|k: Seq<char>| keys.contains(k) implies !semver_valid(k) by {
                let j = choose|j: int| 0 <= j < keys.len() && keys[j] == k;
                if j < keys.len() - 1 {
                    assert(prefix[j] == k);
                }
            }
        }
    }
}

/// Where semver orders the keys strictly and totally, the latest version is a
/// key that no other semantic-version key orders after.
pub proof fn lemma_latest_is_greatest(keys: Seq<Seq<char>>)
    requires
        forall|a: Seq<char>|
            #![trigger semver_less(a, a)]
            keys.contains(a) && semver_valid(a) ==> !semver_less(a, a),
        forall|a: Seq<char>, b: Seq<char>, c: Seq<char>|
            #![trigger semver_less(a, b), semver_less(b, c)]
            keys.contains(a) && keys.contains(b) && keys.contains(c) && semver_valid(a)
                && semver_valid(b) && semver_valid(c) && semver_less(a, b) && semver_less(b, c)
                ==> semver_less(a, c),
        forall|a: Seq<char>, b: Seq<char>|
            #![trigger semver_less(a, b)]
            keys.contains(a) && keys.contains(b) && semver_valid(a) && semver_valid(b) && a != b
                ==> semver_less(a, b) || semver_less(b, a),
    ensures
        latest_in(keys) matches Some(v) ==> keys.contains(v) && semver_valid(v) && forall|
            k: Seq<char>,
        | keys.contains(k) && semver_valid(k) ==> !semver_less(v, k),
    decreases keys.len(),
{
    lemma_latest_is_valid_key(keys);
    if keys.len() > 0 {
        let prefix = keys.drop_last();
        let last = keys.last();
        assert(keys[keys.len() - 1] == last);
        assert forall|k: Seq<char>| prefix.contains(k) implies keys.contains(k) by {
            let j = choose|j: int| 0 <= j < prefix.len() && prefix[j] == k;
            assert(keys[j] == k);
        }
        lemma_latest_is_valid_key(prefix);
        lemma_latest_is_greatest(prefix);
        assert forall|k: Seq<char>| keys.contains(k) && k != last implies prefix.contains(k) by {
            let j = choose|j: int| 0 <= j < keys.len() && keys[j] == k;
            assert(j < keys.len() - 1);
            assert(prefix[j] == k);
        }
    }
}

} // verus!
