//! Local indexing: what the search index holds of one project, made from the
//! rows read about it.
use vstd::prelude::*;
use crate::models::ids::{spec_to_base62, to_base62};
use crate::routes::v3::tags::{spdx_license, spdx_license_info};
use crate::util::sort::{in_key_order, is_arrangement, stable_order};
use crate::util::text::{clone_strings, str_chars, string_from_chars};

verus! {

broadcast use vstd::string::group_string_axioms;

/// Whether SPDX's list has the license and marks it OSI approved.
pub open spec fn spdx_osi_approved(name: Seq<char>) -> bool {
    spdx_license(name) matches Some((_, _, osi)) && osi
}

fn license_is_osi_approved(name: &str) -> (r: bool)
    ensures
        r == spdx_osi_approved(name@),
{
    match spdx_license_info(name) {
        Some((_, _, osi)) => osi,
        None => false,
    }
}

/// A gallery image of a project, as stored.
pub struct GalleryRow {
    pub url: String,
    pub featured: bool,
    pub ordering: i64,
}

/// A category of a project, as stored.
pub struct CategoryRow {
    pub name: String,
    pub is_additional: bool,
}

/// A project to index, as stored; `D` is the type of its dates.
pub struct LocalProject<D> {
    pub id: i64,
    pub name: String,
    pub summary: String,
    pub downloads: i32,
    pub follows: i32,
    pub icon_url: Option<String>,
    pub updated: D,
    pub updated_timestamp: i64,
    /// When it was approved, or else published.
    pub approved: D,
    pub approved_timestamp: i64,
    pub slug: Option<String>,
    pub color: Option<i32>,
    pub license: String,
}

/// What the search index holds of one version of a project.
pub struct UploadSearchProject<D> {
    pub version_id: String,
    pub project_id: String,
    pub name: String,
    pub summary: String,
    pub categories: Vec<String>,
    pub display_categories: Vec<String>,
    pub follows: i32,
    pub downloads: i32,
    pub icon_url: Option<String>,
    pub author: String,
    pub date_created: D,
    pub created_timestamp: i64,
    pub date_modified: D,
    pub modified_timestamp: i64,
    pub license: String,
    pub slug: Option<String>,
    pub project_types: Vec<String>,
    pub gallery: Vec<String>,
    pub featured_gallery: Option<String>,
    pub open_source: bool,
    pub color: Option<u32>,
    pub loaders: Vec<String>,
    pub versions: Vec<String>,
}

/// The author shown: the owner of the project's organization, else the owner
/// of its team; a project with neither is not indexed.
pub fn index_author(org_owner: Option<String>, team_owner: Option<String>) -> (r: Option<String>)
    ensures
        r == match org_owner { Some(o) => Some(o), None => team_owner },
{
    match org_owner {
        Some(o) => Some(o),
        None => team_owner,
    }
}

/// The license text up to its first space.
pub open spec fn spec_first_word(s: Seq<char>) -> Seq<char> {
    if exists|i: int| 0 <= i < s.len() && #[trigger] s[i] == ' ' {
        let i = choose|i: int| 0 <= i < s.len() && #[trigger] s[i] == ' ' && forall|j: int| 0 <= j < i ==> s[j] != ' ';
        s.subrange(0, i)
    } else {
        s
    }
}

/// The license shown: its text up to the first space.
pub fn first_word(s: &str) -> (r: String)
    ensures
        r@ == spec_first_word(s@),
{
    let chars = str_chars(s);
    let mut i: usize = 0;
    while i < chars.len()
        invariant
            i <= chars@.len(),
            chars@ == s@,
            forall|j: int| 0 <= j < i ==> chars@[j] != ' ',
        decreases chars@.len() - i,
    {
        if chars[i] == ' ' {
            proof {
                let c = choose|k: int| 0 <= k < s@.len() && #[trigger] s@[k] == ' ' && forall|j: int| 0 <= j < k ==> s@[j] != ' ';
                assert(s@[i as int] == ' ');
                if c < i {
                    assert(chars@[c] != ' ');
                } else if c > i {
                    assert(s@[i as int] != ' ');
                }
            }
            let piece = vstd::slice::slice_subrange(chars.as_slice(), 0, i);
            return string_from_chars(piece);
        }
        i = i + 1;
    }
    assert(!exists|k: int| 0 <= k < s@.len() && #[trigger] s@[k] == ' ');
    string_from_chars(chars.as_slice())
}

/// The gallery images in gallery order: by their ordering, stored order
/// among equal orderings.
pub open spec fn gallery_keys(gallery: Seq<GalleryRow>) -> Seq<i64> {
    gallery.map_values(|g: GalleryRow| g.ordering)
}

/// The featured gallery image and the others: walking the images in gallery
/// order, the first featured one is the featured image, and every other
/// image goes to the gallery, in that order.
pub open spec fn spec_split_gallery(gallery: Seq<GalleryRow>, order: Seq<usize>) -> (Option<Seq<char>>, Seq<Seq<char>>)
    decreases order.len(),
{
    if order.len() == 0 {
        (None, Seq::empty())
    } else {
        let (featured, vals) = spec_split_gallery(gallery, order.drop_last());
        let g = gallery[order.last() as int];
        if g.featured && featured is None {
            (Some(g.url@), vals)
        } else {
            (featured, vals.push(g.url@))
        }
    }
}

/// The text of a list of strings.
pub open spec fn texts(items: Seq<String>) -> Seq<Seq<char>> {
    items.map_values(|s: String| s@)
}

/// The featured image and the gallery of a project, from its stored images.
pub fn split_gallery(gallery: &Vec<GalleryRow>) -> (r: (Option<String>, Vec<String>))
    ensures
        exists|order: Seq<usize>| {
            &&& is_arrangement(gallery_keys(gallery@), order)
            &&& in_key_order(gallery_keys(gallery@), order)
            &&& spec_split_gallery(gallery@, order) == (match r.0 { Some(f) => Some(f@), None => None::<Seq<char>> }, texts(r.1@))
        },
{
    let mut keys: Vec<i64> = Vec::new();
    let mut i: usize = 0;
    while i < gallery.len()
        invariant
            i <= gallery@.len(),
            keys@ == gallery_keys(gallery@.take(i as int)),
        decreases gallery@.len() - i,
    {
        keys.push(gallery[i].ordering);
        assert(gallery_keys(gallery@.take(i + 1)) == gallery_keys(gallery@.take(i as int)).push(gallery@[i as int].ordering));
        i = i + 1;
    }
    assert(gallery@.take(gallery@.len() as int) == gallery@);
    let order = stable_order(keys.as_slice());
    let mut featured: Option<String> = None;
    let mut vals: Vec<String> = Vec::new();
    let mut k: usize = 0;
    while k < order.len()
        invariant
            k <= order@.len(),
            keys@ == gallery_keys(gallery@),
            is_arrangement(keys@, order@),
            spec_split_gallery(gallery@, order@.take(k as int))
                == (match featured { Some(f) => Some(f@), None => None::<Seq<char>> }, texts(vals@)),
        decreases order@.len() - k,
    {
        assert(order@.take(k + 1).drop_last() == order@.take(k as int));
        assert(order@.contains(order@[k as int]));
        let g = &gallery[order[k]];
        if g.featured && featured.is_none() {
            featured = Some(g.url.clone());
        } else {
            vals.push(g.url.clone());
            assert(texts(vals@) == texts(vals@.drop_last()).push(g.url@));
        }
        k = k + 1;
    }
    assert(order@.take(order@.len() as int) == order@);
    (featured, vals)
}

/// The categories of a project, and those it shows (its additional ones).
pub open spec fn spec_split_categories(categories: Seq<CategoryRow>) -> (Seq<Seq<char>>, Seq<Seq<char>>)
    decreases categories.len(),
{
    if categories.len() == 0 {
        (Seq::empty(), Seq::empty())
    } else {
        let (all, shown) = spec_split_categories(categories.drop_last());
        let c = categories.last();
        (all.push(c.name@), if c.is_additional { shown.push(c.name@) } else { shown })
    }
}

/// The categories of a project, and those it shows.
pub fn split_categories(categories: &Vec<CategoryRow>) -> (r: (Vec<String>, Vec<String>))
    ensures
        spec_split_categories(categories@) == (texts(r.0@), texts(r.1@)),
{
    let mut all: Vec<String> = Vec::new();
    let mut shown: Vec<String> = Vec::new();
    let mut i: usize = 0;
    while i < categories.len()
        invariant
            i <= categories@.len(),
            spec_split_categories(categories@.take(i as int)) == (texts(all@), texts(shown@)),
        decreases categories@.len() - i,
    {
        assert(categories@.take(i + 1).drop_last() == categories@.take(i as int));
        let c = &categories[i];
        if c.is_additional {
            shown.push(c.name.clone());
            assert(texts(shown@) == texts(shown@.drop_last()).push(c.name@));
        }
        all.push(c.name.clone());
        assert(texts(all@) == texts(all@.drop_last()).push(c.name@));
        i = i + 1;
    }
    assert(categories@.take(categories@.len() as int) == categories@);
    (all, shown)
}

fn clone_opt(s: &Option<String>) -> (r: Option<String>)
    ensures
        match *s { Some(t) => r matches Some(u) && u@ == t@, None => r is None },
{
    match s {
        Some(t) => Some(t.clone()),
        None => None,
    }
}

/// What the search index holds of each version of a project, given the
/// project's author, license, categories and gallery already worked out.
pub struct IndexParts {
    pub author: String,
    pub license: String,
    pub open_source: bool,
    pub categories: Vec<String>,
    pub display_categories: Vec<String>,
    pub gallery: Vec<String>,
    pub featured_gallery: Option<String>,
}

/// Whether a document is the one for version `version_id` of the project.
pub open spec fn is_document_of<D>(u: UploadSearchProject<D>, p: LocalProject<D>, parts: IndexParts, version_id: i64) -> bool {
    &&& u.version_id@ == spec_to_base62(version_id as u64 as nat)
    &&& u.project_id@ == spec_to_base62(p.id as u64 as nat)
    &&& u.name@ == p.name@
    &&& u.summary@ == p.summary@
    &&& texts(u.categories@) == texts(parts.categories@)
    &&& texts(u.display_categories@) == texts(parts.display_categories@)
    &&& u.follows == p.follows
    &&& u.downloads == p.downloads
    &&& (match p.icon_url { Some(i) => u.icon_url matches Some(j) && j@ == i@, None => u.icon_url is None })
    &&& u.author@ == parts.author@
    &&& u.date_created == p.approved
    &&& u.created_timestamp == p.approved_timestamp
    &&& u.date_modified == p.updated
    &&& u.modified_timestamp == p.updated_timestamp
    &&& u.license@ == parts.license@
    &&& (match p.slug { Some(i) => u.slug matches Some(j) && j@ == i@, None => u.slug is None })
    &&& u.project_types@.len() == 0
    &&& texts(u.gallery@) == texts(parts.gallery@)
    &&& (match parts.featured_gallery { Some(i) => u.featured_gallery matches Some(j) && j@ == i@, None => u.featured_gallery is None })
    &&& u.open_source == parts.open_source
    &&& u.color == match p.color { Some(c) => Some(c as u32), None => None::<u32> }
    &&& u.loaders@.len() == 0
    &&& u.versions@.len() == 0
}

/// One document per version of a project, in the order of the versions.
pub fn version_documents<D: Copy>(project: &LocalProject<D>, parts: &IndexParts, version_ids: &[i64]) -> (r: Vec<UploadSearchProject<D>>)
    ensures
        r@.len() == version_ids@.len(),
        forall|k: int| 0 <= k < r@.len() ==> is_document_of(#[trigger] r@[k], *project, *parts, version_ids@[k]),
{
    let mut r: Vec<UploadSearchProject<D>> = Vec::new();
    let mut k: usize = 0;
    while k < version_ids.len()
        invariant
            k <= version_ids@.len(),
            r@.len() == k,
            forall|j: int| 0 <= j < k ==> is_document_of(#[trigger] r@[j], *project, *parts, version_ids@[j]),
        decreases version_ids@.len() - k,
    {
        let color: Option<u32> = match project.color {
            Some(c) => Some(c as u32),
            None => None,
        };
        let u = UploadSearchProject {
            version_id: to_base62(version_ids[k] as u64),
            project_id: to_base62(project.id as u64),
            name: project.name.clone(),
            summary: project.summary.clone(),
            categories: clone_strings(&parts.categories),
            display_categories: clone_strings(&parts.display_categories),
            follows: project.follows,
            downloads: project.downloads,
            icon_url: clone_opt(&project.icon_url),
            author: parts.author.clone(),
            date_created: project.approved,
            created_timestamp: project.approved_timestamp,
            date_modified: project.updated,
            modified_timestamp: project.updated_timestamp,
            license: parts.license.clone(),
            slug: clone_opt(&project.slug),
            project_types: Vec::new(),
            gallery: clone_strings(&parts.gallery),
            featured_gallery: clone_opt(&parts.featured_gallery),
            open_source: parts.open_source,
            color,
            loaders: Vec::new(),
            versions: Vec::new(),
        };
        r.push(u);
        k = k + 1;
    }
    r
}

/// What the search index holds of a project, one document per version:
/// nothing when the project has no owner to show as its author; else the
/// license up to its first space (and whether SPDX lists it as OSI
/// approved), the categories and the additional ones it shows, and the
/// gallery split into the featured image and the others.
pub fn index_project<D: Copy>(
    project: &LocalProject<D>,
    org_owner: Option<String>,
    team_owner: Option<String>,
    gallery: &Vec<GalleryRow>,
    categories: &Vec<CategoryRow>,
    version_ids: &[i64],
) -> (r: Vec<UploadSearchProject<D>>)
    ensures
        (org_owner is None && team_owner is None) ==> r@.len() == 0,
        !(org_owner is None && team_owner is None) ==> exists|parts: IndexParts| {
            &&& parts.author@ == (match org_owner { Some(o) => o@, None => team_owner->0@ })
            &&& parts.license@ == spec_first_word(project.license@)
            &&& parts.open_source == spdx_osi_approved(spec_first_word(project.license@))
            &&& spec_split_categories(categories@) == (texts(parts.categories@), texts(parts.display_categories@))
            &&& exists|order: Seq<usize>| {
                &&& is_arrangement(gallery_keys(gallery@), order)
                &&& in_key_order(gallery_keys(gallery@), order)
                &&& spec_split_gallery(gallery@, order) == (match parts.featured_gallery {
                    Some(f) => Some(f@),
                    None => None::<Seq<char>>,
                }, texts(parts.gallery@))
            }
            &&& r@.len() == version_ids@.len()
            &&& forall|k: int| 0 <= k < r@.len() ==> is_document_of(#[trigger] r@[k], *project, parts, version_ids@[k])
        },
{
    let author = match index_author(org_owner, team_owner) {
        None => return Vec::new(),
        Some(a) => a,
    };
    let license = first_word(project.license.as_str());
    let open_source = license_is_osi_approved(license.as_str());
    let (all, shown) = split_categories(categories);
    let (featured_gallery, vals) = split_gallery(gallery);
    let parts = IndexParts {
        author,
        license,
        open_source,
        categories: all,
        display_categories: shown,
        gallery: vals,
        featured_gallery,
    };
    let r = version_documents(project, &parts, version_ids);
    assert(parts.author@ == (match org_owner { Some(o) => o@, None => team_owner->0@ }));
    r
}

} // verus!
