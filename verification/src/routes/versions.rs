//! Legacy version routes: a stored version in the first-generation shape.
use vstd::prelude::*;
use vstd::utf8::{decode_utf8, valid_utf8};
use crate::models::ids::{spec_to_base62, to_base62, UserId, VersionId};
use crate::routes::{ApiError, EditStart};
use crate::models::mods::{GameVersion, ModId, ModLoader, Version, VersionFile, VersionType};
use crate::util::text::{str_eq, string_from_utf8};

verus! {

broadcast use vstd::string::group_string_axioms;

/// A list of version ids, as a JSON array in a string.
pub struct VersionIds {
    pub ids: String,
}

/// A stored file of a version; its hashes are kept as the bytes of their text.
pub struct QueryFile {
    pub url: String,
    pub filename: String,
    pub hashes: Vec<(String, Vec<u8>)>,
}

/// A stored version, as the database gives it; `D` is the type of its
/// publication date.
pub struct QueryVersion<D> {
    pub id: i64,
    pub mod_id: i64,
    pub author_id: i64,
    pub name: String,
    pub version_number: String,
    pub changelog_url: Option<String>,
    pub date_published: D,
    pub downloads: i32,
    pub release_channel: String,
    pub files: Vec<QueryFile>,
    pub game_versions: Vec<String>,
    pub loaders: Vec<String>,
}

/// The version type a release channel stands for; an unknown channel is
/// taken as a hidden release.
pub open spec fn spec_version_type(channel: Seq<char>) -> VersionType {
    if channel == "release"@ {
        VersionType::Release
    } else if channel == "beta"@ {
        VersionType::Beta
    } else if channel == "alpha"@ {
        VersionType::Alpha
    } else if channel == "release-hidden"@ {
        VersionType::ReleaseHidden
    } else if channel == "beta-hidden"@ {
        VersionType::BetaHidden
    } else if channel == "alpha-hidden"@ {
        VersionType::AlphaHidden
    } else {
        VersionType::ReleaseHidden
    }
}

/// The version type a release channel stands for.
pub fn version_type_of_channel(channel: &str) -> (r: VersionType)
    ensures
        r == spec_version_type(channel@),
{
    if str_eq(channel, "release") {
        VersionType::Release
    } else if str_eq(channel, "beta") {
        VersionType::Beta
    } else if str_eq(channel, "alpha") {
        VersionType::Alpha
    } else if str_eq(channel, "release-hidden") {
        VersionType::ReleaseHidden
    } else if str_eq(channel, "beta-hidden") {
        VersionType::BetaHidden
    } else if str_eq(channel, "alpha-hidden") {
        VersionType::AlphaHidden
    } else {
        VersionType::ReleaseHidden
    }
}

/// Whether every stored hash is valid UTF-8 text.
pub open spec fn all_hashes_text(hashes: Seq<(String, Vec<u8>)>) -> bool {
    forall|i: int| 0 <= i < hashes.len() ==> valid_utf8(#[trigger] hashes[i].1@)
}

/// The hashes of a file as text: all of them when every one is valid UTF-8,
/// else none at all.
pub open spec fn spec_file_hashes(hashes: Seq<(String, Vec<u8>)>) -> Seq<(Seq<char>, Seq<char>)> {
    if all_hashes_text(hashes) {
        hashes.map_values(|h: (String, Vec<u8>)| (h.0@, decode_utf8(h.1@)))
    } else {
        Seq::empty()
    }
}

/// The text of hash pairs.
pub open spec fn pair_views(pairs: Seq<(String, String)>) -> Seq<(Seq<char>, Seq<char>)> {
    pairs.map_values(|p: (String, String)| (p.0@, p.1@))
}

/// The hashes of a stored file as text.
pub fn file_hashes(hashes: &Vec<(String, Vec<u8>)>) -> (r: Vec<(String, String)>)
    ensures
        pair_views(r@) == spec_file_hashes(hashes@),
{
    let mut r: Vec<(String, String)> = Vec::new();
    let mut i: usize = 0;
    while i < hashes.len()
        invariant
            i <= hashes@.len(),
            r@.len() == i,
            forall|k: int| 0 <= k < i ==> valid_utf8(#[trigger] hashes@[k].1@),
            forall|k: int| 0 <= k < i ==> (#[trigger] r@[k]).0@ == hashes@[k].0@ && r@[k].1@ == decode_utf8(hashes@[k].1@),
        decreases hashes@.len() - i,
    {
        let bytes = vstd::slice::slice_to_vec(hashes[i].1.as_slice());
        match string_from_utf8(bytes) {
            Some(text) => {
                r.push((hashes[i].0.clone(), text));
            },
            None => {
                let empty: Vec<(String, String)> = Vec::new();
                assert(!all_hashes_text(hashes@));
                assert(pair_views(empty@) =~= Seq::<(Seq<char>, Seq<char>)>::empty());
                return empty;
            },
        }
        i = i + 1;
    }
    assert(pair_views(r@) =~= spec_file_hashes(hashes@));
    r
}

fn file_from_query(f: QueryFile) -> (r: VersionFile)
    ensures
        r.url == f.url,
        r.filename == f.filename,
        pair_views(r.hashes@) == spec_file_hashes(f.hashes@),
{
    let hashes = file_hashes(&f.hashes);
    VersionFile { url: f.url, filename: f.filename, hashes }
}

/// The files of a stored version in the first-generation shape, in order.
pub fn files_from_query(files: Vec<QueryFile>) -> (r: Vec<VersionFile>)
    ensures
        r@.len() == files@.len(),
        forall|k: int| 0 <= k < files@.len() ==> {
            &&& (#[trigger] r@[k]).url == files@[k].url
            &&& r@[k].filename == files@[k].filename
            &&& pair_views(r@[k].hashes@) == spec_file_hashes(files@[k].hashes@)
        },
{
    let mut rest = files;
    let mut rev: Vec<VersionFile> = Vec::new();
    let ghost all = rest@;
    while rest.len() > 0
        invariant
            rest@ == all.take(rest@.len() as int),
            rev@.len() + rest@.len() == all.len(),
            forall|k: int| 0 <= k < rev@.len() ==> {
                let q = all[all.len() - 1 - k];
                &&& (#[trigger] rev@[k]).url == q.url
                &&& rev@[k].filename == q.filename
                &&& pair_views(rev@[k].hashes@) == spec_file_hashes(q.hashes@)
            },
        decreases rest@.len(),
    {
        let f = rest.pop().unwrap();
        rev.push(file_from_query(f));
    }
    let mut r: Vec<VersionFile> = Vec::new();
    while rev.len() > 0
        invariant
            r@.len() + rev@.len() == all.len(),
            forall|k: int| 0 <= k < rev@.len() ==> {
                let q = all[all.len() - 1 - k];
                &&& (#[trigger] rev@[k]).url == q.url
                &&& rev@[k].filename == q.filename
                &&& pair_views(rev@[k].hashes@) == spec_file_hashes(q.hashes@)
            },
            forall|k: int| 0 <= k < r@.len() ==> {
                &&& (#[trigger] r@[k]).url == all[k].url
                &&& r@[k].filename == all[k].filename
                &&& pair_views(r@[k].hashes@) == spec_file_hashes(all[k].hashes@)
            },
        decreases rev@.len(),
    {
        let f = rev.pop().unwrap();
        r.push(f);
    }
    r
}

/// Names as game versions, in order.
fn game_versions_of(names: Vec<String>) -> (r: Vec<GameVersion>)
    ensures
        r@.len() == names@.len(),
        forall|k: int| 0 <= k < names@.len() ==> (#[trigger] r@[k]).0 == names@[k],
{
    let mut r: Vec<GameVersion> = Vec::new();
    let mut i: usize = 0;
    while i < names.len()
        invariant
            i <= names@.len(),
            r@.len() == i,
            forall|k: int| 0 <= k < i ==> (#[trigger] r@[k]).0 == names@[k],
        decreases names@.len() - i,
    {
        r.push(GameVersion(names[i].clone()));
        i = i + 1;
    }
    r
}

/// Names as mod loaders, in order.
fn mod_loaders_of(names: Vec<String>) -> (r: Vec<ModLoader>)
    ensures
        r@.len() == names@.len(),
        forall|k: int| 0 <= k < names@.len() ==> (#[trigger] r@[k]).0 == names@[k],
{
    let mut r: Vec<ModLoader> = Vec::new();
    let mut i: usize = 0;
    while i < names.len()
        invariant
            i <= names@.len(),
            r@.len() == i,
            forall|k: int| 0 <= k < i ==> (#[trigger] r@[k]).0 == names@[k],
        decreases names@.len() - i,
    {
        r.push(ModLoader(names[i].clone()));
        i = i + 1;
    }
    r
}

/// A stored version in the first-generation shape: ids read as unsigned,
/// downloads as unsigned, the release channel as a version type, each file's
/// hashes as text, no dependencies, and game versions and loaders by name.
pub fn convert_version<D>(data: QueryVersion<D>) -> (r: Version<D>)
    ensures
        r.id == VersionId(data.id as u64),
        r.mod_id == ModId(data.mod_id as u64),
        r.author_id == UserId(data.author_id as u64),
        r.name == data.name,
        r.version_number == data.version_number,
        r.changelog_url == data.changelog_url,
        r.date_published == data.date_published,
        r.downloads == data.downloads as u32,
        r.version_type == spec_version_type(data.release_channel@),
        r.files@.len() == data.files@.len(),
        forall|k: int| 0 <= k < data.files@.len() ==> {
            &&& (#[trigger] r.files@[k]).url == data.files@[k].url
            &&& r.files@[k].filename == data.files@[k].filename
            &&& pair_views(r.files@[k].hashes@) == spec_file_hashes(data.files@[k].hashes@)
        },
        r.dependencies@.len() == 0,
        r.game_versions@.len() == data.game_versions@.len(),
        forall|k: int| 0 <= k < data.game_versions@.len() ==> (#[trigger] r.game_versions@[k]).0 == data.game_versions@[k],
        r.loaders@.len() == data.loaders@.len(),
        forall|k: int| 0 <= k < data.loaders@.len() ==> (#[trigger] r.loaders@[k]).0 == data.loaders@[k],
{
    let version_type = version_type_of_channel(data.release_channel.as_str());
    Version {
        id: VersionId(data.id as u64),
        mod_id: ModId(data.mod_id as u64),
        author_id: UserId(data.author_id as u64),
        name: data.name,
        version_number: data.version_number,
        changelog_url: data.changelog_url,
        date_published: data.date_published,
        downloads: data.downloads as u32,
        version_type,
        files: files_from_query(data.files),
        dependencies: Vec::new(),
        game_versions: game_versions_of(data.game_versions),
        loaders: mod_loaders_of(data.loaders),
    }
}

/// The first step of a legacy edit of a version: a version that does not
/// exist is not found; only a moderator may edit one that does.
pub fn check_legacy_version_edit(version_exists: bool, is_moderator: bool) -> (r: Result<EditStart, ApiError>)
    ensures
        !version_exists ==> r matches Ok(EditStart::NotFound),
        version_exists && is_moderator ==> r matches Ok(EditStart::Edit),
        version_exists && !is_moderator ==> r matches Err(ApiError::Authentication),
{
    if !version_exists {
        Ok(EditStart::NotFound)
    } else if is_moderator {
        Ok(EditStart::Edit)
    } else {
        Err(ApiError::Authentication)
    }
}

/// Whether a version type is a hidden one.
pub open spec fn is_hidden_type(t: VersionType) -> bool {
    t is ReleaseHidden || t is BetaHidden || t is AlphaHidden
}

/// The release channel that a legacy edit stores for a new version type,
/// given the channel that the type's lookup found: a hidden type is refused
/// to a user who is no moderator; a type without a channel is refused.
pub fn legacy_edit_channel(version_type: VersionType, is_moderator: bool, channel: Option<i64>) -> (r: Result<i64, ApiError>)
    ensures
        is_hidden_type(version_type) && !is_moderator ==> r matches Err(ApiError::Authentication),
        !(is_hidden_type(version_type) && !is_moderator) ==> match channel {
            Some(c) => r matches Ok(x) && x == c,
            None => r matches Err(ApiError::InvalidInput(m)) && m@ == "No database entry for version type provided."@,
        },
{
    let hidden = match version_type {
        VersionType::ReleaseHidden | VersionType::BetaHidden | VersionType::AlphaHidden => true,
        _ => false,
    };
    if hidden && !is_moderator {
        return Err(ApiError::Authentication);
    }
    match channel {
        Some(c) => Ok(c),
        None => Err(ApiError::InvalidInput("No database entry for version type provided.".to_owned())),
    }
}

/// The loader that a legacy edit stores, given what the loader's lookup
/// found: a loader that is not known is refused.
pub fn legacy_edit_loader(loader_id: Option<i32>) -> (r: Result<i32, ApiError>)
    ensures
        match loader_id {
            Some(l) => r matches Ok(x) && x == l,
            None => r matches Err(ApiError::InvalidInput(m)) && m@ == "No database entry for loader provided."@,
        },
{
    match loader_id {
        Some(l) => Ok(l),
        None => Err(ApiError::InvalidInput("No database entry for loader provided.".to_owned())),
    }
}

/// Where a legacy edit stores a version's changelog:
/// `data/{mod}/versions/{version number}/changelog.md`, the mod id in base62.
pub fn legacy_changelog_path(mod_id: ModId, version_number: &str) -> (r: String)
    ensures
        r@ == "data/"@ + spec_to_base62(mod_id.0 as nat) + "/versions/"@ + version_number@ + "/changelog.md"@,
{
    let mut p = "data/".to_owned();
    p.append(to_base62(mod_id.0).as_str());
    p.append("/versions/");
    p.append(version_number);
    p.append("/changelog.md");
    p
}

} // verus!
