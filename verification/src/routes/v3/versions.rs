//! Versions (v3): request bodies, and which versions of a project a listing
//! shows and in what order.
use vstd::prelude::*;
use crate::models::projects::{Dependency, FileType, Loader, VersionStatus, VersionType};
use crate::models::ids::{parse_base62, spec_parse_base62};
use crate::routes::ApiError;
use crate::util::json::{json_string_array, parse_string_array};
use crate::util::text::{spec_trim, str_eq, trim};

verus! {

broadcast use vstd::string::group_string_axioms;

/// A list of version ids, as a JSON array in a string.
pub struct VersionIds {
    pub ids: String,
}

/// A change of the kind of one file of a version, found by its hash.
pub struct EditVersionFileType {
    pub algorithm: String,
    pub hash: String,
    pub file_type: Option<FileType>,
}

/// The filters of a version listing.
pub struct VersionListFilters {
    /// Loaders, as a JSON array of names in a string.
    pub loaders: Option<String>,
    pub featured: Option<bool>,
    pub version_type: Option<VersionType>,
    pub limit: Option<usize>,
    pub offset: Option<usize>,
    /// Loader fields and the values they may hold, as a JSON object in a string.
    pub loader_fields: Option<String>,
}

/// The name of a version type, as versions store it.
pub open spec fn spec_version_type_str(t: VersionType) -> Seq<char> {
    match t {
        VersionType::Release => "release"@,
        VersionType::Beta => "beta"@,
        VersionType::Alpha => "alpha"@,
    }
}

impl VersionType {
    /// The name of this version type, as versions store it.
    pub fn as_str(&self) -> (s: &'static str)
        ensures
            s@ == spec_version_type_str(*self),
    {
        match self {
            VersionType::Release => "release",
            VersionType::Beta => "beta",
            VersionType::Alpha => "alpha",
        }
    }
}

/// What a listing reads of one version of the project.
pub struct ListedVersion {
    /// The stored version type.
    pub version_type: String,
    pub loaders: Vec<String>,
    pub featured: bool,
    /// When the version was published, as a number that orders by time.
    pub published: i64,
    /// Whether the version's loader fields hold one of the values asked for,
    /// for every field asked for that the version has.
    pub fields_match: bool,
}

/// The loader names of a version, as text.
pub open spec fn loader_views(loaders: Seq<String>) -> Seq<Seq<char>> {
    loaders.map_values(|l: String| l@)
}

/// Whether a version has one of the loaders asked for.
pub open spec fn spec_has_any_loader(loaders: Seq<String>, wanted: Seq<Seq<char>>) -> bool {
    exists|i: int| 0 <= i < loaders.len() && wanted.contains(#[trigger] loaders[i]@)
}

/// Whether a version passes the type, loader and loader-field filters.
pub open spec fn spec_version_passes(v: ListedVersion, version_type: Option<VersionType>, loaders: Option<Seq<Seq<char>>>) -> bool {
    &&& version_type matches Some(t) ==> v.version_type@ == spec_version_type_str(t)
    &&& loaders matches Some(w) ==> spec_has_any_loader(v.loaders@, w)
    &&& v.fields_match
}

/// The first position after the skipped versions, and the end of the window
/// that the limit leaves.
pub open spec fn window_start(len: nat, offset: Option<usize>) -> nat {
    let o: nat = match offset { Some(o) => o as nat, None => 0 };
    if o < len { o } else { len }
}

/// Where the window of a listing ends: `limit` items after `offset`, at most the end.
pub open spec fn window_end(len: nat, offset: Option<usize>, limit: Option<usize>) -> nat {
    let l: nat = match limit { Some(l) => l as nat, None => usize::MAX as nat };
    let s = window_start(len, offset);
    if s + l < len { s + l } else { len }
}

/// The positions in `[from, to)` of the versions that pass the filters, in order.
pub open spec fn spec_passing(versions: Seq<ListedVersion>, from: int, to: int, version_type: Option<VersionType>, loaders: Option<Seq<Seq<char>>>) -> Seq<usize>
    decreases to - from,
{
    if to <= from {
        Seq::empty()
    } else {
        let before = spec_passing(versions, from, to - 1, version_type, loaders);
        if spec_version_passes(versions[to - 1], version_type, loaders) {
            before.push((to - 1) as usize)
        } else {
            before
        }
    }
}

/// Among the positions `kept`, those whose featured flag is the one asked for
/// (all of them when none is asked for), in order.
pub open spec fn spec_featured(versions: Seq<ListedVersion>, kept: Seq<usize>, featured: Option<bool>) -> Seq<usize>
    decreases kept.len(),
{
    if kept.len() == 0 {
        Seq::empty()
    } else {
        let before = spec_featured(versions, kept.drop_last(), featured);
        if featured matches Some(f) && versions[kept.last() as int].featured != f {
            before
        } else {
            before.push(kept.last())
        }
    }
}

/// The versions a listing shows, before ordering: within the window that the
/// offset and the limit leave, those passing the filters and with the featured
/// flag asked for; when featured versions are asked for and none passes, all
/// that pass the other filters instead.
pub open spec fn spec_listed(versions: Seq<ListedVersion>, filters: VersionListFilters, loaders: Option<Seq<Seq<char>>>) -> Seq<usize> {
    let from = window_start(versions.len(), filters.offset) as int;
    let to = window_end(versions.len(), filters.offset, filters.limit) as int;
    let kept = spec_passing(versions, from, to, filters.version_type, loaders);
    let response = spec_featured(versions, kept, filters.featured);
    if response.len() == 0 && kept.len() > 0 && filters.featured == Some(true) {
        kept
    } else {
        response
    }
}

/// Whether the version at `a` comes before the one at `b` in a listing:
/// newer first, and in their stored order when published at the same time.
pub open spec fn listed_before(versions: Seq<ListedVersion>, a: usize, b: usize) -> bool {
    versions[a as int].published > versions[b as int].published
        || (versions[a as int].published == versions[b as int].published && a < b)
}

/// Whether the positions are in listing order.
pub open spec fn in_listing_order(versions: Seq<ListedVersion>, s: Seq<usize>) -> bool {
    forall|i: int, j: int| 0 <= i < j < s.len() ==> listed_before(versions, #[trigger] s[i], #[trigger] s[j])
}

fn has_any_loader(loaders: &Vec<String>, wanted: &Vec<String>) -> (r: bool)
    ensures
        r == spec_has_any_loader(loaders@, loader_views(wanted@)),
{
    let mut i: usize = 0;
    while i < loaders.len()
        invariant
            i <= loaders@.len(),
            forall|k: int| 0 <= k < i ==> !loader_views(wanted@).contains(#[trigger] loaders@[k]@),
        decreases loaders@.len() - i,
    {
        let mut j: usize = 0;
        while j < wanted.len()
            invariant
                i < loaders@.len(),
                j <= wanted@.len(),
                forall|k: int| 0 <= k < j ==> wanted@[k]@ != loaders@[i as int]@,
            decreases wanted@.len() - j,
        {
            if str_eq(loaders[i].as_str(), wanted[j].as_str()) {
                assert(loader_views(wanted@)[j as int] == loaders@[i as int]@);
                return true;
            }
            j = j + 1;
        }
        assert(!loader_views(wanted@).contains(loaders@[i as int]@)) by {
            if loader_views(wanted@).contains(loaders@[i as int]@) {
                let k = choose|k: int| 0 <= k < loader_views(wanted@).len() && loader_views(wanted@)[k] == loaders@[i as int]@;
                assert(wanted@[k]@ == loaders@[i as int]@);
            }
        }
        i = i + 1;
    }
    false
}

fn version_passes(v: &ListedVersion, version_type: Option<VersionType>, loaders: &Option<Vec<String>>) -> (r: bool)
    ensures
        r == spec_version_passes(*v, version_type, match loaders { Some(w) => Some(loader_views(w@)), None => None }),
{
    let mut ok = true;
    if let Some(t) = version_type {
        ok = ok && str_eq(v.version_type.as_str(), t.as_str());
    }
    if let Some(w) = loaders {
        ok = ok && has_any_loader(&v.loaders, w);
    }
    ok && v.fields_match
}

/// Inserts `p` into positions already in listing order, keeping the order.
fn insert_in_order(versions: &[ListedVersion], sorted: &mut Vec<usize>, p: usize)
    requires
        p < versions@.len(),
        forall|i: int| 0 <= i < old(sorted)@.len() ==> old(sorted)@[i] < versions@.len(),
        in_listing_order(versions@, old(sorted)@),
        !old(sorted)@.contains(p),
    ensures
        in_listing_order(versions@, final(sorted)@),
        final(sorted)@.len() == old(sorted)@.len() + 1,
        forall|x: usize| #[trigger] final(sorted)@.contains(x) <==> (old(sorted)@.contains(x) || x == p),
        forall|i: int| 0 <= i < final(sorted)@.len() ==> final(sorted)@[i] < versions@.len(),
{
    let mut k: usize = 0;
    while k < sorted.len() && listed_before_exec(versions, sorted[k], p)
        invariant
            k <= sorted@.len(),
            p < versions@.len(),
            forall|i: int| 0 <= i < sorted@.len() ==> sorted@[i] < versions@.len(),
            forall|i: int| 0 <= i < k ==> listed_before(versions@, #[trigger] sorted@[i], p),
        decreases sorted@.len() - k,
    {
        k = k + 1;
    }
    let ghost before = sorted@;
    proof {
        assert forall|i: int| k <= i < before.len() implies listed_before(versions@, p, #[trigger] before[i]) by {
            assert(!listed_before(versions@, before[k as int], p));
            assert(before[k as int] != p);
            if i > k {
                assert(listed_before(versions@, before[k as int], before[i]));
            }
        }
        before.insert_ensures(k as int, p);
    }
    sorted.insert(k, p);
    proof {
        let after = sorted@;
        assert forall|x: usize| #[trigger] after.contains(x) <==> (before.contains(x) || x == p) by {
            if after.contains(x) {
                let j = choose|j: int| 0 <= j < after.len() && after[j] == x;
                if j < k {
                    assert(before[j] == x);
                } else if j > k {
                    assert(before[j - 1] == x);
                }
            }
            if before.contains(x) {
                let j = choose|j: int| 0 <= j < before.len() && before[j] == x;
                if j < k {
                    assert(after[j] == x);
                } else {
                    assert(after[j + 1] == x);
                }
            }
            if x == p {
                assert(after[k as int] == p);
            }
        }
        assert forall|i: int, j: int| 0 <= i < j < after.len() implies listed_before(versions@, #[trigger] after[i], #[trigger] after[j]) by {
            if j < k {
                assert(after[i] == before[i] && after[j] == before[j]);
            } else if j == k {
                assert(after[i] == before[i]);
            } else if i < k {
                assert(after[i] == before[i] && after[j] == before[j - 1]);
                assert(listed_before(versions@, p, before[j - 1]));
                assert(listed_before(versions@, before[i], p));
            } else if i == k {
                assert(after[j] == before[j - 1]);
            } else {
                assert(after[i] == before[i - 1] && after[j] == before[j - 1]);
            }
        }
    }
}

fn listed_before_exec(versions: &[ListedVersion], a: usize, b: usize) -> (r: bool)
    requires
        a < versions@.len(),
        b < versions@.len(),
    ensures
        r == listed_before(versions@, a, b),
{
    versions[a].published > versions[b].published
        || (versions[a].published == versions[b].published && a < b)
}

/// Whether the positions increase strictly and lie in `[lo, hi)`.
pub open spec fn increasing_within(s: Seq<usize>, lo: int, hi: int) -> bool {
    &&& forall|i: int, j: int| 0 <= i < j < s.len() ==> #[trigger] s[i] < #[trigger] s[j]
    &&& forall|i: int| 0 <= i < s.len() ==> lo <= #[trigger] s[i] < hi
}

proof fn lemma_passing_increasing(versions: Seq<ListedVersion>, from: int, to: int, version_type: Option<VersionType>, loaders: Option<Seq<Seq<char>>>)
    requires
        0 <= from,
        to <= usize::MAX,
    ensures
        increasing_within(spec_passing(versions, from, to, version_type, loaders), from, if to < from { from } else { to }),
    decreases to - from,
{
    if to > from {
        lemma_passing_increasing(versions, from, to - 1, version_type, loaders);
        let before = spec_passing(versions, from, to - 1, version_type, loaders);
        let all = spec_passing(versions, from, to, version_type, loaders);
        assert(forall|i: int| 0 <= i < before.len() ==> before[i] < to - 1);
        if spec_version_passes(versions[to - 1], version_type, loaders) {
            assert(all == before.push((to - 1) as usize));
            assert forall|i: int, j: int| 0 <= i < j < all.len() implies #[trigger] all[i] < #[trigger] all[j] by {
                if j < before.len() {
                    assert(all[i] == before[i] && all[j] == before[j]);
                } else {
                    assert(all[i] == before[i]);
                }
            }
        }
    }
}

proof fn lemma_featured_within(versions: Seq<ListedVersion>, kept: Seq<usize>, featured: Option<bool>, lo: int, hi: int)
    requires
        increasing_within(kept, lo, hi),
    ensures
        increasing_within(spec_featured(versions, kept, featured), lo, hi),
        forall|x: usize| #[trigger] spec_featured(versions, kept, featured).contains(x) ==> kept.contains(x),
        spec_featured(versions, kept, featured).len() > 0 ==>
            spec_featured(versions, kept, featured).last() <= kept.last(),
    decreases kept.len(),
{
    if kept.len() > 0 {
        let prev = kept.drop_last();
        assert(increasing_within(prev, lo, hi));
        lemma_featured_within(versions, prev, featured, lo, hi);
        let before = spec_featured(versions, prev, featured);
        assert forall|x: usize| #[trigger] before.contains(x) implies kept.contains(x) by {
            let j = choose|j: int| 0 <= j < prev.len() && prev[j] == x;
            assert(kept[j] == x);
        }
        if before.len() > 0 {
            assert(before.last() <= prev.last());
            assert(prev.last() < kept.last());
        }
        let all = spec_featured(versions, kept, featured);
        assert forall|x: usize| #[trigger] all.contains(x) implies kept.contains(x) by {
            let j = choose|j: int| 0 <= j < all.len() && all[j] == x;
            if j < before.len() {
                assert(before[j] == x);
                assert(before.contains(x));
            } else {
                assert(kept[kept.len() - 1] == x);
            }
        }
    }
}

/// The versions a listing shows, as positions in `versions`, newest first:
/// exactly those of [`spec_listed`], each once. `loaders` are the loader names
/// asked for, already read from the request.
pub fn list_versions(versions: &[ListedVersion], filters: &VersionListFilters, loaders: &Option<Vec<String>>) -> (r: Vec<usize>)
    ensures
        in_listing_order(versions@, r@),
        r@.len() == spec_listed(versions@, *filters, match loaders { Some(w) => Some(loader_views(w@)), None => None }).len(),
        forall|x: usize| #[trigger] r@.contains(x)
            <==> spec_listed(versions@, *filters, match loaders { Some(w) => Some(loader_views(w@)), None => None }).contains(x),
{
    let ghost wanted = match loaders { Some(w) => Some(loader_views(w@)), None => None };
    let len = versions.len();
    let from: usize = match filters.offset {
        Some(o) => if o < len { o } else { len },
        None => 0,
    };
    let to: usize = match filters.limit {
        Some(l) => if l < len - from { from + l } else { len },
        None => len,
    };
    assert(from as nat == window_start(versions@.len(), filters.offset));
    assert(to as nat == window_end(versions@.len(), filters.offset, filters.limit));
    let mut kept: Vec<usize> = Vec::new();
    let mut i: usize = from;
    while i < to
        invariant
            from <= i <= to <= versions@.len(),
            kept@ == spec_passing(versions@, from as int, i as int, filters.version_type, wanted),
            wanted == match loaders { Some(w) => Some(loader_views(w@)), None => None },
        decreases to - i,
    {
        if version_passes(&versions[i], filters.version_type, loaders) {
            kept.push(i);
        }
        i = i + 1;
    }
    proof {
        lemma_passing_increasing(versions@, from as int, to as int, filters.version_type, wanted);
    }
    let mut response: Vec<usize> = Vec::new();
    let mut j: usize = 0;
    while j < kept.len()
        invariant
            j <= kept@.len(),
            increasing_within(kept@, from as int, to as int),
            to <= versions@.len(),
            response@ == spec_featured(versions@, kept@.take(j as int), filters.featured),
        decreases kept@.len() - j,
    {
        assert(kept@.take(j + 1).drop_last() == kept@.take(j as int));
        let p = kept[j];
        let keep = match filters.featured {
            Some(f) => versions[p].featured == f,
            None => true,
        };
        if keep {
            response.push(p);
        }
        j = j + 1;
    }
    assert(kept@.take(kept@.len() as int) == kept@);
    if response.len() == 0 && kept.len() > 0 && filters.featured == Some(true) {
        response = kept;
    }
    let ghost listed = spec_listed(versions@, *filters, wanted);
    assert(response@ == listed);
    proof {
        lemma_featured_within(versions@, kept@, filters.featured, from as int, to as int);
    }
    assert(increasing_within(response@, from as int, to as int));
    let mut sorted: Vec<usize> = Vec::new();
    let mut k: usize = 0;
    while k < response.len()
        invariant
            k <= response@.len(),
            increasing_within(response@, from as int, to as int),
            to <= versions@.len(),
            in_listing_order(versions@, sorted@),
            sorted@.len() == k,
            forall|i: int| 0 <= i < sorted@.len() ==> sorted@[i] < versions@.len(),
            forall|x: usize| #[trigger] sorted@.contains(x) <==> response@.take(k as int).contains(x),
        decreases response@.len() - k,
    {
        let p = response[k];
        proof {
            if response@.take(k as int).contains(p) {
                let t = choose|t: int| 0 <= t < k && response@.take(k as int)[t] == p;
                assert(response@[t] < response@[k as int]);
            }
        }
        insert_in_order(versions, &mut sorted, p);
        proof {
            let next = response@.take(k + 1);
            assert forall|x: usize| #[trigger] sorted@.contains(x) <==> next.contains(x) by {
                if next.contains(x) {
                    let t = choose|t: int| 0 <= t < next.len() && next[t] == x;
                    if t < k {
                        assert(response@.take(k as int)[t] == x);
                    }
                }
                if response@.take(k as int).contains(x) {
                    let t = choose|t: int| 0 <= t < k && response@.take(k as int)[t] == x;
                    assert(next[t] == x);
                }
                if x == p {
                    assert(next[k as int] == x);
                }
            }
        }
        k = k + 1;
    }
    assert(response@.take(response@.len() as int) == response@);
    sorted
}

/// The loader names a listing asks for: none when the filter is absent, and
/// an empty list (which no version passes) when it is no JSON list of names.
pub open spec fn spec_loader_filter(loaders: Option<String>) -> Option<Seq<Seq<char>>> {
    match loaders {
        None => None,
        Some(t) => match json_string_array(t@) {
            Some(v) => Some(v),
            None => Some(Seq::empty()),
        },
    }
}

/// The loader names a listing asks for, read from the filter.
pub fn loader_filter(filters: &VersionListFilters) -> (r: Option<Vec<String>>)
    ensures
        match r {
            Some(w) => spec_loader_filter(filters.loaders) == Some(loader_views(w@)),
            None => spec_loader_filter(filters.loaders) is None,
        },
{
    match &filters.loaders {
        None => None,
        Some(t) => match parse_string_array(t.as_str()) {
            Some(v) => Some(v),
            None => {
                let empty: Vec<String> = Vec::new();
                assert(loader_views(empty@) == Seq::<Seq<char>>::empty());
                Some(empty)
            },
        },
    }
}

/// The versions a listing of a project shows, as positions in `versions`,
/// newest first: exactly those of [`spec_listed`] under the loader names the
/// filter asks for, each once.
pub fn select_versions(versions: &[ListedVersion], filters: &VersionListFilters) -> (r: Vec<usize>)
    ensures
        in_listing_order(versions@, r@),
        r@.len() == spec_listed(versions@, *filters, spec_loader_filter(filters.loaders)).len(),
        forall|x: usize| #[trigger] r@.contains(x)
            <==> spec_listed(versions@, *filters, spec_loader_filter(filters.loaders)).contains(x),
{
    let loaders = loader_filter(filters);
    list_versions(versions, filters, &loaders)
}

/// An edit of a version. A field that is absent is left as it is.
pub struct EditVersion {
    pub name: Option<String>,
    pub version_number: Option<String>,
    pub changelog: Option<String>,
    pub version_type: Option<VersionType>,
    pub dependencies: Option<Vec<Dependency>>,
    pub loaders: Option<Vec<Loader>>,
    pub featured: Option<bool>,
    /// The new primary file, by hash algorithm and hash.
    pub primary_file: Option<(String, String)>,
    pub downloads: Option<u32>,
    pub status: Option<VersionStatus>,
    pub file_types: Option<Vec<EditVersionFileType>>,
    /// Loader fields, by name, each value as JSON text.
    pub fields: Vec<(String, String)>,
}

/// A change of a version's download count by a moderator.
#[derive(Debug, Clone, Copy, PartialEq, Eq, Structural)]
pub struct DownloadsChange {
    /// The count stored for the version.
    pub stored: i32,
    /// What is added to the project's count: the new count less the old one,
    /// in 32-bit unsigned arithmetic that wraps, then read as signed.
    pub project_delta: i32,
}

/// What an edit of a version does besides storing the fields it gives.
pub struct VersionEditPlan {
    /// The new name, with the white space at both ends left off.
    pub name: Option<String>,
    /// Whether the version's dependencies are replaced (not for modpacks, and
    /// only while the project exists).
    pub replace_dependencies: bool,
    pub downloads: Option<DownloadsChange>,
}

/// The new count less the old one, in 32-bit unsigned arithmetic that wraps.
pub open spec fn wrapped_difference(new: u32, old: u32) -> u32 {
    if new >= old {
        (new - old) as u32
    } else {
        (new + 0x1_0000_0000 - old) as u32
    }
}

fn downloads_change(new: u32, old: i32) -> (r: DownloadsChange)
    ensures
        r.stored == new as i32,
        r.project_delta == wrapped_difference(new, old as u32) as i32,
{
    let old_u = old as u32;
    let diff: u32 = if new >= old_u {
        new - old_u
    } else {
        ((new as u64 + 0x1_0000_0000) - old_u as u64) as u32
    };
    DownloadsChange { stored: new as i32, project_delta: diff as i32 }
}

/// Whether an edit of a version goes through, and what it does: the user
/// needs permissions in the project, among them the one to upload versions;
/// only a moderator sets the download count; a status must be one a user may
/// ask for. `project_type` is that of the version's project, if it still
/// exists; `old_downloads` is the stored download count.
pub fn plan_version_edit(
    permissions: Option<bool>,
    user_is_mod: bool,
    project_type: Option<&str>,
    old_downloads: i32,
    edit: &EditVersion,
) -> (r: Result<VersionEditPlan, ApiError>)
    ensures
        permissions is None ==> (r matches Err(ApiError::CustomAuthentication(m))
            && m@ == "You do not have permission to edit this version!"@),
        permissions == Some(false) ==> (r matches Err(ApiError::CustomAuthentication(m))
            && m@ == "You do not have the permissions to edit this version!"@),
        permissions == Some(true) && edit.downloads is Some && !user_is_mod ==> (r matches Err(ApiError::CustomAuthentication(m))
            && m@ == "You don't have permission to set the downloads of this mod"@),
        permissions == Some(true) && (edit.downloads is Some ==> user_is_mod) && edit.status is Some
            && !edit.status->0.spec_can_be_requested() ==> (r matches Err(ApiError::InvalidInput(m))
            && m@ == "The requested status cannot be set!"@),
        r is Ok <==> (permissions == Some(true) && (edit.downloads is Some ==> user_is_mod)
            && (edit.status is Some ==> edit.status->0.spec_can_be_requested())),
        r matches Ok(plan) ==> {
            &&& match edit.name {
                Some(n) => plan.name matches Some(t) && t@ == spec_trim(n@),
                None => plan.name is None,
            }
            &&& plan.replace_dependencies == (edit.dependencies is Some && project_type is Some
                && project_type->0@ != "modpack"@)
            &&& match edit.downloads {
                Some(d) => plan.downloads == Some(DownloadsChange {
                    stored: d as i32,
                    project_delta: wrapped_difference(d, old_downloads as u32) as i32,
                }),
                None => plan.downloads is None,
            }
        },
{
    match permissions {
        None => {
            return Err(ApiError::CustomAuthentication("You do not have permission to edit this version!".to_owned()));
        },
        Some(false) => {
            return Err(ApiError::CustomAuthentication(
                "You do not have the permissions to edit this version!".to_owned(),
            ));
        },
        Some(true) => {},
    }
    if edit.downloads.is_some() && !user_is_mod {
        return Err(ApiError::CustomAuthentication(
            "You don't have permission to set the downloads of this mod".to_owned(),
        ));
    }
    if let Some(s) = &edit.status {
        if !s.can_be_requested() {
            return Err(ApiError::InvalidInput("The requested status cannot be set!".to_owned()));
        }
    }
    let name = match &edit.name {
        Some(n) => Some(trim(n.as_str())),
        None => None,
    };
    let replace_dependencies = edit.dependencies.is_some() && match project_type {
        Some(t) => !str_eq(t, "modpack"),
        None => false,
    };
    let downloads = match edit.downloads {
        Some(d) => Some(downloads_change(d, old_downloads)),
        None => None,
    };
    Ok(VersionEditPlan { name, replace_dependencies, downloads })
}

/// The answer when a file named by its hash is not found; the text shown is
/// the one the route passes (the hash for the primary file, the algorithm for
/// a change of file types).
pub fn missing_file_error(shown: &str) -> (r: ApiError)
    ensures
        r matches ApiError::InvalidInput(m) && m@ == "Specified file with hash "@ + shown@ + " does not exist."@,
{
    let mut m = "Specified file with hash ".to_owned();
    m.append(shown);
    m.append(" does not exist.");
    ApiError::InvalidInput(m)
}

/// The answer when an edit names a loader field that does not exist.
pub fn missing_loader_field_error(name: &str) -> (r: ApiError)
    ensures
        r matches ApiError::InvalidInput(m) && m@ == "Loader field '"@ + name@ + "' does not exist."@,
{
    let mut m = "Loader field '".to_owned();
    m.append(name);
    m.append("' does not exist.");
    ApiError::InvalidInput(m)
}

/// A stored version of a project as a lookup by id or number sees it.
pub struct VersionKey {
    pub id: i64,
    pub version_number: String,
}

/// Whether a version is the one a key names: its id read as unsigned equals
/// the key read as base62, or its number equals the key.
pub open spec fn spec_names_version(v: VersionKey, key: Seq<char>) -> bool {
    (spec_parse_base62(key) matches Ok(n) && n == v.id as u64) || v.version_number@ == key
}

/// The first version of a project that a key names, by id or number.
pub fn find_project_version(versions: &[VersionKey], key: &str) -> (r: Option<usize>)
    ensures
        match r {
            Some(i) => i < versions@.len() && spec_names_version(versions@[i as int], key@)
                && forall|j: int| 0 <= j < i ==> !spec_names_version(#[trigger] versions@[j], key@),
            None => forall|j: int| 0 <= j < versions@.len() ==> !spec_names_version(#[trigger] versions@[j], key@),
        },
{
    let id = match parse_base62(key) {
        Ok(n) => Some(n),
        Err(_) => None,
    };
    let mut i: usize = 0;
    while i < versions.len()
        invariant
            i <= versions@.len(),
            id == match spec_parse_base62(key@) { Ok(n) => Some(n), Err(_) => None::<u64> },
            forall|j: int| 0 <= j < i ==> !spec_names_version(#[trigger] versions@[j], key@),
        decreases versions@.len() - i,
    {
        let by_id = match id {
            Some(n) => n == versions[i].id as u64,
            None => false,
        };
        if by_id || str_eq(versions[i].version_number.as_str(), key) {
            return Some(i);
        }
        i = i + 1;
    }
    None
}

} // verus!
