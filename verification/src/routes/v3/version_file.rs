//! Version files (v3): which hash algorithm a lookup by hash uses.
use vstd::prelude::*;
use vstd::utf8::encode_utf8;
use crate::models::ids::VersionId;
use crate::models::projects::VersionType;
use crate::routes::v3::versions::spec_version_type_str;
use crate::routes::ApiError;
use crate::util::text::{lowercase, str_eq, string_views, to_lowercase};

verus! {

/// A lookup by hash: the algorithm (else chosen from the hash) and,
/// optionally, the version the file must belong to.
pub struct HashQuery {
    pub algorithm: Option<String>,
    pub version_id: Option<VersionId>,
}

/// The length in bytes of the first hash, 0 when there is none.
pub open spec fn first_hash_len(hashes: Seq<String>) -> nat {
    if hashes.len() == 0 {
        0
    } else {
        encode_utf8(hashes[0]@).len()
    }
}

/// The algorithm a hash of that many bytes is taken to be: `sha512` from 128
/// bytes on (a sha512 hex digest has 128), else `sha1` (40).
pub open spec fn spec_algorithm_for_len(len: nat) -> Seq<char> {
    if len >= 128 {
        "sha512"@
    } else {
        "sha1"@
    }
}

/// The algorithm of the hashes when the request names none, judged by the
/// length of the first hash (an empty first hash when there are none).
pub fn default_algorithm_from_hashes(hashes: &[String]) -> (r: String)
    ensures
        r@ == spec_algorithm_for_len(first_hash_len(hashes@)),
{
    let hash_len: usize = if hashes.len() > 0 {
        hashes[0].as_str().as_bytes().len()
    } else {
        0
    };
    if hash_len >= 128 {
        return "sha512".to_owned();
    }
    "sha1".to_owned()
}

/// The algorithm a lookup uses: the one named, else the one the hashes'
/// length suggests.
pub fn hash_algorithm(algorithm: &Option<String>, hashes: &[String]) -> (r: String)
    ensures
        r@ == match algorithm {
            Some(a) => a@,
            None => spec_algorithm_for_len(first_hash_len(hashes@)),
        },
{
    match algorithm {
        Some(a) => a.clone(),
        None => default_algorithm_from_hashes(hashes),
    }
}

/// A lookup of many files by hash.
pub struct FileHashes {
    pub algorithm: Option<String>,
    pub hashes: Vec<String>,
}

/// Where a file is downloaded from.
pub struct DownloadRedirect {
    pub url: String,
}

/// What an update lookup asks of the newer version.
pub struct UpdateData {
    pub loaders: Option<Vec<String>>,
    pub version_types: Option<Vec<VersionType>>,
}

/// What an update lookup reads of one version of the file's project.
pub struct UpdateCandidate {
    /// The stored version type.
    pub version_type: String,
    pub loaders: Vec<String>,
    /// Whether the version's loader fields hold one of the values asked for,
    /// for every field asked for that the version has.
    pub fields_match: bool,
    /// The key by which stored versions are ordered.
    pub order_key: i64,
}

/// The version types asked for, if any.
pub open spec fn opt_types(t: Option<Vec<VersionType>>) -> Option<Seq<VersionType>> {
    match t {
        Some(v) => Some(v@),
        None => None,
    }
}

/// The names asked for, if any.
pub open spec fn opt_names(l: Option<Vec<String>>) -> Option<Seq<Seq<char>>> {
    match l {
        Some(v) => Some(string_views(v@)),
        None => None,
    }
}

/// Whether a version is of one of the types asked for, has one of the
/// loaders asked for, and matches the loader fields asked for.
pub open spec fn spec_update_passes(c: UpdateCandidate, version_types: Option<Seq<VersionType>>, loaders: Option<Seq<Seq<char>>>) -> bool {
    &&& version_types matches Some(ts) ==> exists|i: int| 0 <= i < ts.len() && spec_version_type_str(#[trigger] ts[i]) == c.version_type@
    &&& loaders matches Some(ls) ==> exists|i: int| 0 <= i < c.loaders@.len() && ls.contains(#[trigger] c.loaders@[i]@)
    &&& c.fields_match
}

/// Whether the version at `i` is the update: it passes, and every passing
/// version has a smaller key or an equal key at an earlier position (the last
/// of the passing versions once they are stably ordered by key).
pub open spec fn is_latest_update(cs: Seq<UpdateCandidate>, i: int, version_types: Option<Seq<VersionType>>, loaders: Option<Seq<Seq<char>>>) -> bool {
    &&& 0 <= i < cs.len()
    &&& spec_update_passes(cs[i], version_types, loaders)
    &&& forall|j: int| 0 <= j < cs.len() && spec_update_passes(#[trigger] cs[j], version_types, loaders) ==>
        cs[j].order_key < cs[i].order_key || (cs[j].order_key == cs[i].order_key && j <= i)
}

fn type_matches(types: &Vec<VersionType>, stored: &str) -> (r: bool)
    ensures
        r == exists|i: int| 0 <= i < types@.len() && spec_version_type_str(#[trigger] types@[i]) == stored@,
{
    let mut i: usize = 0;
    while i < types.len()
        invariant
            i <= types@.len(),
            forall|k: int| 0 <= k < i ==> spec_version_type_str(#[trigger] types@[k]) != stored@,
        decreases types@.len() - i,
    {
        if str_eq(types[i].as_str(), stored) {
            return true;
        }
        i = i + 1;
    }
    false
}

fn any_loader_in(loaders: &Vec<String>, wanted: &Vec<String>) -> (r: bool)
    ensures
        r == exists|i: int| 0 <= i < loaders@.len() && string_views(wanted@).contains(#[trigger] loaders@[i]@),
{
    let mut i: usize = 0;
    while i < loaders.len()
        invariant
            i <= loaders@.len(),
            forall|k: int| 0 <= k < i ==> !string_views(wanted@).contains(#[trigger] loaders@[k]@),
        decreases loaders@.len() - i,
    {
        let mut j: usize = 0;
        while j < wanted.len()
            invariant
                i < loaders@.len(),
                j <= wanted@.len(),
                forall|k: int| 0 <= k < j ==> wanted@[k]@ != loaders@[i as int]@,
            decreases wanted@.len() - j,
        {
            if str_eq(loaders[i].as_str(), wanted[j].as_str()) {
                assert(string_views(wanted@)[j as int] == loaders@[i as int]@);
                return true;
            }
            j = j + 1;
        }
        assert(!string_views(wanted@).contains(loaders@[i as int]@)) by {
            if string_views(wanted@).contains(loaders@[i as int]@) {
                let k = choose|k: int| 0 <= k < string_views(wanted@).len() && string_views(wanted@)[k] == loaders@[i as int]@;
                assert(wanted@[k]@ == loaders@[i as int]@);
            }
        }
        i = i + 1;
    }
    false
}

fn update_passes(c: &UpdateCandidate, data: &UpdateData) -> (r: bool)
    ensures
        r == spec_update_passes(*c, opt_types(data.version_types), opt_names(data.loaders)),
{
    let type_ok = match &data.version_types {
        Some(types) => {
            let stored = c.version_type.as_str();
            assert(stored@ == c.version_type@);
            type_matches(types, stored)
        },
        None => true,
    };
    let loader_ok = match &data.loaders {
        Some(l) => any_loader_in(&c.loaders, l),
        None => true,
    };
    assert(type_ok == (opt_types(data.version_types) matches Some(ts) ==> exists|i: int| 0 <= i < ts.len() && spec_version_type_str(#[trigger] ts[i]) == c.version_type@));
    assert(loader_ok == (opt_names(data.loaders) matches Some(ls) ==> exists|i: int| 0 <= i < c.loaders@.len() && ls.contains(#[trigger] c.loaders@[i]@)));
    type_ok && loader_ok && c.fields_match
}

/// The newest version of a file's project that an update lookup accepts, as
/// a position among the project's versions; none when no version passes.
pub fn latest_update(candidates: &[UpdateCandidate], data: &UpdateData) -> (r: Option<usize>)
    ensures
        match r {
            Some(i) => is_latest_update(candidates@, i as int,
                opt_types(data.version_types),
                opt_names(data.loaders)),
            None => forall|j: int| 0 <= j < candidates@.len() ==> !spec_update_passes(#[trigger] candidates@[j],
                opt_types(data.version_types),
                opt_names(data.loaders)),
        },
{
    let ghost types = opt_types(data.version_types);
    let ghost wanted = opt_names(data.loaders);
    let mut best: Option<usize> = None;
    let mut i: usize = 0;
    while i < candidates.len()
        invariant
            i <= candidates@.len(),
            types == opt_types(data.version_types),
            wanted == opt_names(data.loaders),
            match best {
                Some(b) => b < i && spec_update_passes(candidates@[b as int], types, wanted)
                    && forall|j: int| 0 <= j < i && spec_update_passes(#[trigger] candidates@[j], types, wanted) ==>
                        candidates@[j].order_key < candidates@[b as int].order_key
                        || (candidates@[j].order_key == candidates@[b as int].order_key && j <= b),
                None => forall|j: int| 0 <= j < i ==> !spec_update_passes(#[trigger] candidates@[j], types, wanted),
            },
        decreases candidates@.len() - i,
    {
        if update_passes(&candidates[i], data) {
            match best {
                None => {
                    best = Some(i);
                },
                Some(b) => {
                    if candidates[i].order_key >= candidates[b].order_key {
                        best = Some(i);
                    }
                },
            }
        }
        i = i + 1;
    }
    best
}

/// The request entry of a found file: the first one asking for its hash.
pub fn entry_for_hash(hashes: &Vec<String>, hash: &str) -> (r: Option<usize>)
    ensures
        match r {
            Some(i) => i < hashes@.len() && hashes@[i as int]@ == hash@
                && forall|j: int| 0 <= j < i ==> (#[trigger] hashes@[j])@ != hash@,
            None => forall|j: int| 0 <= j < hashes@.len() ==> (#[trigger] hashes@[j])@ != hash@,
        },
{
    let mut i: usize = 0;
    while i < hashes.len()
        invariant
            i <= hashes@.len(),
            forall|j: int| 0 <= j < i ==> (#[trigger] hashes@[j])@ != hash@,
        decreases hashes@.len() - i,
    {
        if str_eq(hashes[i].as_str(), hash) {
            return Some(i);
        }
        i = i + 1;
    }
    None
}

/// A hash as looked up: in lower case.
pub fn lookup_hash(hash: &str) -> (r: String)
    ensures
        r@ == lowercase(hash@),
{
    to_lowercase(hash)
}

/// Whether a file may be deleted: admins always; others with the permission
/// to delete versions; and never the last file of its version
/// (`version_files` is how many files the version has, if it was found).
pub fn check_file_delete(user_is_admin: bool, may_delete_versions: bool, version_files: Option<usize>) -> (r: Result<(), ApiError>)
    ensures
        r is Ok <==> ((user_is_admin || may_delete_versions) && !(version_files matches Some(n) && n < 2)),
        !(user_is_admin || may_delete_versions) ==> (r matches Err(ApiError::CustomAuthentication(m))
            && m@ == "You don't have permission to delete this file!"@),
        (user_is_admin || may_delete_versions) && (version_files matches Some(n) && n < 2) ==>
            (r matches Err(ApiError::InvalidInput(m)) && m@ == "Versions must have at least one file uploaded to them"@),
{
    if !user_is_admin && !may_delete_versions {
        return Err(ApiError::CustomAuthentication("You don't have permission to delete this file!".to_owned()));
    }
    if let Some(n) = version_files {
        if n < 2 {
            return Err(ApiError::InvalidInput("Versions must have at least one file uploaded to them".to_owned()));
        }
    }
    Ok(())
}

} // verus!
