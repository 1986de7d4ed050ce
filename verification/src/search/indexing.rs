//! Indexing: how the projects are cut into batches on their way to the
//! search index, and which fields the index must be told about.
pub mod local_import;

use vstd::prelude::*;
use crate::util::text::{str_eq, string_views};
use crate::util::text_sort::{lemma_sort_texts_in_order, lemma_sorted_texts_in_order, sorted_strings, spec_sort_texts};

verus! {

broadcast use vstd::string::group_string_axioms;

/// How many projects are read from the database at a time.
pub const FETCH_PROJECT_SIZE: usize = 5000;

/// How many documents go to the search index in one request (kept small so
/// that a request stays under the index's size limit).
pub const MEILISEARCH_CHUNK_SIZE: usize = 2500;

/// Whether `r` cuts the positions `0..len` into consecutive batches of
/// `size`, the last of which may be shorter (and none of which is empty).
pub open spec fn is_batching(r: Seq<(usize, usize)>, len: nat, size: nat) -> bool {
    &&& (len == 0 <==> r.len() == 0)
    &&& r.len() > 0 ==> r[0].0 == 0 && r.last().1 == len
    &&& forall|i: int| 0 <= i < r.len() ==> (#[trigger] r[i]).0 < r[i].1 && r[i].1 <= r[i].0 + size
    &&& forall|i: int| 0 <= i < r.len() - 1 ==> (#[trigger] r[i]).1 == r[i].0 + size && r[i].1 == r[i + 1].0
}

/// The batches, as ranges of positions, in which `len` items are handed on
/// `size` at a time, in order.
pub fn batch_ranges(len: usize, size: usize) -> (r: Vec<(usize, usize)>)
    requires
        size > 0,
    ensures
        is_batching(r@, len as nat, size as nat),
{
    let mut r: Vec<(usize, usize)> = Vec::new();
    let mut start: usize = 0;
    while start < len
        invariant
            start <= len,
            size > 0,
            r@.len() == 0 <==> start == 0,
            r@.len() > 0 ==> r@[0].0 == 0 && r@.last().1 == start,
            forall|i: int| 0 <= i < r@.len() ==> (#[trigger] r@[i]).0 < r@[i].1 && r@[i].1 <= r@[i].0 + size,
            forall|i: int| 0 <= i < r@.len() - 1 ==> (#[trigger] r@[i]).1 == r@[i].0 + size && r@[i].1 == r@[i + 1].0,
            r@.len() > 0 && start < len ==> r@.last().1 == r@.last().0 + size,
        decreases len - start,
    {
        let end = if len - start > size { start + size } else { len };
        let ghost before = r@;
        r.push((start, end));
        proof {
            assert forall|i: int| 0 <= i < r@.len() - 1 implies (#[trigger] r@[i]).1 == r@[i].0 + size && r@[i].1 == r@[i + 1].0 by {
                if i < before.len() - 1 {
                    assert(r@[i] == before[i] && r@[i + 1] == before[i + 1]);
                } else {
                    assert(r@[i] == before.last());
                }
            }
        }
        start = end;
    }
    r
}

/// The fields of `additional` that the index cannot filter by yet, in order.
pub open spec fn spec_new_fields(filterable: Seq<Seq<char>>, additional: Seq<Seq<char>>) -> Seq<Seq<char>>
    decreases additional.len(),
{
    if additional.len() == 0 {
        Seq::empty()
    } else {
        let before = spec_new_fields(filterable, additional.drop_last());
        if filterable.contains(additional.last()) {
            before
        } else {
            before.push(additional.last())
        }
    }
}

fn contains_text(items: &Vec<String>, x: &str) -> (r: bool)
    ensures
        r == string_views(items@).contains(x@),
{
    let ghost views = string_views(items@);
    let mut i: usize = 0;
    while i < items.len()
        invariant
            i <= items@.len(),
            views == string_views(items@),
            forall|k: int| 0 <= k < i ==> views[k] != x@,
        decreases items@.len() - i,
    {
        if str_eq(items[i].as_str(), x) {
            assert(views[i as int] == x@);
            return true;
        }
        i = i + 1;
    }
    false
}

/// The fields that must be added to the index's filterable and displayed
/// attributes before its documents are added: those of `additional` it
/// cannot filter by yet.
pub fn new_index_fields(filterable: &Vec<String>, additional: &Vec<String>) -> (r: Vec<String>)
    ensures
        string_views(r@) == spec_new_fields(string_views(filterable@), string_views(additional@)),
{
    let ghost fviews = string_views(filterable@);
    let mut r: Vec<String> = Vec::new();
    let mut i: usize = 0;
    while i < additional.len()
        invariant
            i <= additional@.len(),
            fviews == string_views(filterable@),
            string_views(r@) == spec_new_fields(fviews, string_views(additional@.take(i as int))),
        decreases additional@.len() - i,
    {
        let ghost prev = string_views(additional@.take(i as int));
        assert(string_views(additional@.take(i + 1)).drop_last() == prev);
        assert(string_views(additional@.take(i + 1)).last() == additional@[i as int]@);
        if !contains_text(filterable, additional[i].as_str()) {
            let s = additional[i].clone();
            let ghost old_r = r@;
            r.push(s);
            assert(string_views(r@) == string_views(old_r).push(additional@[i as int]@));
        }
        i = i + 1;
    }
    assert(additional@.take(additional@.len() as int) == additional@);
    r
}

/// Every new field is one the index could not filter by, taken from the
/// additional fields; and every additional field is afterwards filterable.
pub proof fn lemma_new_fields_complete(filterable: Seq<Seq<char>>, additional: Seq<Seq<char>>)
    ensures
        forall|x: Seq<char>| #[trigger] spec_new_fields(filterable, additional).contains(x)
            ==> additional.contains(x) && !filterable.contains(x),
        forall|x: Seq<char>| additional.contains(x)
            ==> #[trigger] (filterable + spec_new_fields(filterable, additional)).contains(x),
    decreases additional.len(),
{
    if additional.len() > 0 {
        let rest = additional.drop_last();
        let last = additional.last();
        lemma_new_fields_complete(filterable, rest);
        let before = spec_new_fields(filterable, rest);
        let now = spec_new_fields(filterable, additional);
        assert forall|x: Seq<char>| #[trigger] now.contains(x) implies additional.contains(x) && !filterable.contains(x) by {
            let k = choose|k: int| 0 <= k < now.len() && now[k] == x;
            if k < before.len() {
                assert(before[k] == x);
                assert(before.contains(x));
                let j = choose|j: int| 0 <= j < rest.len() && rest[j] == x;
                assert(additional[j] == x);
            } else {
                assert(x == last);
                assert(additional[additional.len() - 1] == x);
            }
        }
        assert forall|x: Seq<char>| additional.contains(x) implies #[trigger] (filterable + now).contains(x) by {
            let j = choose|j: int| 0 <= j < additional.len() && additional[j] == x;
            if j < additional.len() - 1 {
                assert(rest[j] == x);
                assert(rest.contains(x));
                assert((filterable + before).contains(x));
                let k = choose|k: int| 0 <= k < (filterable + before).len() && (filterable + before)[k] == x;
                assert((filterable + now)[k] == x);
            } else if filterable.contains(x) {
                let k = choose|k: int| 0 <= k < filterable.len() && filterable[k] == x;
                assert((filterable + now)[k] == x);
            } else {
                assert(now == before.push(x));
                assert((filterable + now)[(filterable.len() + before.len()) as int] == x);
            }
        }
    }
}


/// The fields a search result shows (among them the v2 side fields and
/// the fields that fill in a project).
pub open spec fn spec_default_displayed_attributes() -> Seq<Seq<char>> {
    seq![
        "project_id"@,
        "version_id"@,
        "project_types"@,
        "slug"@,
        "author"@,
        "name"@,
        "summary"@,
        "categories"@,
        "display_categories"@,
        "downloads"@,
        "follows"@,
        "icon_url"@,
        "date_created"@,
        "date_modified"@,
        "latest_version"@,
        "license"@,
        "gallery"@,
        "featured_gallery"@,
        "color"@,
        "client_side"@,
        "server_side"@,
        "license_url"@,
        "monetization_status"@,
        "team_id"@,
        "thread_id"@,
        "versions"@,
        "date_published"@,
        "date_queued"@,
        "status"@,
        "requested_status"@,
        "games"@,
        "organization_id"@,
        "links"@,
        "gallery_items"@,
        "loaders"@,
        "project_loader_fields"@,
    ]
}

/// The fields a search result shows.
pub fn default_displayed_attributes() -> (r: Vec<String>)
    ensures
        string_views(r@) == spec_default_displayed_attributes(),
{
    let mut r: Vec<String> = Vec::new();
    r.push("project_id".to_owned());
    r.push("version_id".to_owned());
    r.push("project_types".to_owned());
    r.push("slug".to_owned());
    r.push("author".to_owned());
    r.push("name".to_owned());
    r.push("summary".to_owned());
    r.push("categories".to_owned());
    r.push("display_categories".to_owned());
    r.push("downloads".to_owned());
    r.push("follows".to_owned());
    r.push("icon_url".to_owned());
    r.push("date_created".to_owned());
    r.push("date_modified".to_owned());
    r.push("latest_version".to_owned());
    r.push("license".to_owned());
    r.push("gallery".to_owned());
    r.push("featured_gallery".to_owned());
    r.push("color".to_owned());
    r.push("client_side".to_owned());
    r.push("server_side".to_owned());
    r.push("license_url".to_owned());
    r.push("monetization_status".to_owned());
    r.push("team_id".to_owned());
    r.push("thread_id".to_owned());
    r.push("versions".to_owned());
    r.push("date_published".to_owned());
    r.push("date_queued".to_owned());
    r.push("status".to_owned());
    r.push("requested_status".to_owned());
    r.push("games".to_owned());
    r.push("organization_id".to_owned());
    r.push("links".to_owned());
    r.push("gallery_items".to_owned());
    r.push("loaders".to_owned());
    r.push("project_loader_fields".to_owned());
    assert(string_views(r@) =~= spec_default_displayed_attributes());
    r
}

/// The fields a search looks in, in order of weight.
pub open spec fn spec_default_searchable_attributes() -> Seq<Seq<char>> {
    seq![
        "name"@,
        "summary"@,
        "author"@,
        "slug"@,
    ]
}

/// The fields a search looks in, in order of weight.
pub fn default_searchable_attributes() -> (r: Vec<String>)
    ensures
        string_views(r@) == spec_default_searchable_attributes(),
{
    let mut r: Vec<String> = Vec::new();
    r.push("name".to_owned());
    r.push("summary".to_owned());
    r.push("author".to_owned());
    r.push("slug".to_owned());
    assert(string_views(r@) =~= spec_default_searchable_attributes());
    r
}

/// The fields a search can filter by.
pub open spec fn spec_default_faceting_attributes() -> Seq<Seq<char>> {
    seq![
        "categories"@,
        "license"@,
        "project_types"@,
        "downloads"@,
        "follows"@,
        "author"@,
        "name"@,
        "date_created"@,
        "created_timestamp"@,
        "date_modified"@,
        "modified_timestamp"@,
        "project_id"@,
        "open_source"@,
        "color"@,
        "client_side"@,
        "server_side"@,
    ]
}

/// The fields a search can filter by.
pub fn default_faceting_attributes() -> (r: Vec<String>)
    ensures
        string_views(r@) == spec_default_faceting_attributes(),
{
    let mut r: Vec<String> = Vec::new();
    r.push("categories".to_owned());
    r.push("license".to_owned());
    r.push("project_types".to_owned());
    r.push("downloads".to_owned());
    r.push("follows".to_owned());
    r.push("author".to_owned());
    r.push("name".to_owned());
    r.push("date_created".to_owned());
    r.push("created_timestamp".to_owned());
    r.push("date_modified".to_owned());
    r.push("modified_timestamp".to_owned());
    r.push("project_id".to_owned());
    r.push("open_source".to_owned());
    r.push("color".to_owned());
    r.push("client_side".to_owned());
    r.push("server_side".to_owned());
    assert(string_views(r@) =~= spec_default_faceting_attributes());
    r
}

/// The fields a search can sort by.
pub open spec fn spec_default_sortable_attributes() -> Seq<Seq<char>> {
    seq![
        "downloads"@,
        "follows"@,
        "date_created"@,
        "date_modified"@,
    ]
}

/// The fields a search can sort by.
pub fn default_sortable_attributes() -> (r: Vec<String>)
    ensures
        string_views(r@) == spec_default_sortable_attributes(),
{
    let mut r: Vec<String> = Vec::new();
    r.push("downloads".to_owned());
    r.push("follows".to_owned());
    r.push("date_created".to_owned());
    r.push("date_modified".to_owned());
    assert(string_views(r@) =~= spec_default_sortable_attributes());
    r
}

/// The settings of a search index that this crate sets; the others
/// (synonyms, faceting, typo tolerance, dictionary) it never sets, and they
/// never count as changed.
pub struct IndexSettings {
    pub stop_words: Option<Vec<String>>,
    pub ranking_rules: Option<Vec<String>>,
    pub filterable_attributes: Option<Vec<String>>,
    pub sortable_attributes: Option<Vec<String>>,
    pub distinct_attribute: Option<String>,
    pub searchable_attributes: Option<Vec<String>>,
    pub displayed_attributes: Option<Vec<String>>,
    /// The pagination limit: how many hits a search may reach.
    pub max_total_hits: Option<usize>,
}

/// The text of an optional list of strings.
pub open spec fn opt_texts(o: Option<Vec<String>>) -> Option<Seq<Seq<char>>> {
    match o {
        Some(v) => Some(string_views(v@)),
        None => None,
    }
}

/// The ranking rules of the filtered index: sort first, then the usual ones.
pub open spec fn spec_filtered_ranking_rules() -> Seq<Seq<char>> {
    seq!["sort"@, "words"@, "typo"@, "proximity"@, "attribute"@, "exactness"@]
}

/// The ranking rules of the filtered index.
pub fn filtered_ranking_rules() -> (r: Vec<String>)
    ensures
        string_views(r@) == spec_filtered_ranking_rules(),
{
    let mut r: Vec<String> = Vec::new();
    r.push("sort".to_owned());
    r.push("words".to_owned());
    r.push("typo".to_owned());
    r.push("proximity".to_owned());
    r.push("attribute".to_owned());
    r.push("exactness".to_owned());
    assert(string_views(r@) =~= spec_filtered_ranking_rules());
    r
}

/// Whether these are the settings every index gets, with the ranking rules
/// given: one document per project, the default fields (displayed,
/// filterable and sortable ones in order), no limit on the hits short of
/// `i32::MAX`, no stop words.
pub open spec fn is_default_settings(r: IndexSettings, ranking_rules: Option<Seq<Seq<char>>>) -> bool {
    &&& r.stop_words is None
    &&& opt_texts(r.ranking_rules) == ranking_rules
    &&& r.distinct_attribute matches Some(d) && d@ == "project_id"@
    &&& opt_texts(r.displayed_attributes) == Some(spec_sort_texts(spec_default_displayed_attributes()))
    &&& opt_texts(r.searchable_attributes) == Some(spec_default_searchable_attributes())
    &&& opt_texts(r.sortable_attributes) == Some(spec_sort_texts(spec_default_sortable_attributes()))
    &&& opt_texts(r.filterable_attributes) == Some(spec_sort_texts(spec_default_faceting_attributes()))
    &&& r.max_total_hits == Some(2147483647usize)
}

/// The settings every index gets: one document per project, the default
/// fields (displayed, filterable and sortable ones in order), no limit on
/// the hits short of `i32::MAX`, and the ranking rules given, if any.
pub fn default_settings(ranking_rules: Option<Vec<String>>) -> (r: IndexSettings)
    ensures
        is_default_settings(r, opt_texts(ranking_rules)),
{
    IndexSettings {
        stop_words: None,
        ranking_rules,
        filterable_attributes: Some(sorted_strings(&default_faceting_attributes())),
        sortable_attributes: Some(sorted_strings(&default_sortable_attributes())),
        distinct_attribute: Some("project_id".to_owned()),
        searchable_attributes: Some(default_searchable_attributes()),
        displayed_attributes: Some(sorted_strings(&default_displayed_attributes())),
        max_total_hits: Some(2147483647),
    }
}

/// An old list as it is compared with the wanted one: left out where the
/// wanted settings leave the list unset, and put in order where `sort`.
pub open spec fn compared_list(old: Option<Vec<String>>, wanted: Option<Vec<String>>, sort: bool) -> Option<Seq<Seq<char>>> {
    match wanted {
        None => None,
        Some(_) => match old {
            None => None,
            Some(v) => Some(if sort { spec_sort_texts(string_views(v@)) } else { string_views(v@) }),
        },
    }
}

/// Whether an existing index must be given the wanted settings: whether,
/// leaving out what the wanted settings leave unset and putting the stop
/// words and the filterable, sortable and displayed fields in order, its
/// settings differ from the wanted ones.
pub open spec fn spec_settings_differ(old: IndexSettings, wanted: IndexSettings) -> bool {
    ||| compared_list(old.stop_words, wanted.stop_words, true) != opt_texts(wanted.stop_words)
    ||| compared_list(old.ranking_rules, wanted.ranking_rules, false) != opt_texts(wanted.ranking_rules)
    ||| compared_list(old.filterable_attributes, wanted.filterable_attributes, true) != opt_texts(wanted.filterable_attributes)
    ||| compared_list(old.sortable_attributes, wanted.sortable_attributes, true) != opt_texts(wanted.sortable_attributes)
    ||| (match wanted.distinct_attribute {
        None => None,
        Some(_) => match old.distinct_attribute { Some(d) => Some(d@), None => None },
    }) != (match wanted.distinct_attribute { Some(d) => Some(d@), None => None::<Seq<char>> })
    ||| compared_list(old.searchable_attributes, wanted.searchable_attributes, false) != opt_texts(wanted.searchable_attributes)
    ||| compared_list(old.displayed_attributes, wanted.displayed_attributes, true) != opt_texts(wanted.displayed_attributes)
    ||| (match wanted.max_total_hits { None => None, Some(_) => old.max_total_hits }) != wanted.max_total_hits
}

fn same_strings(a: &Vec<String>, b: &Vec<String>) -> (r: bool)
    ensures
        r == (string_views(a@) == string_views(b@)),
{
    if a.len() != b.len() {
        assert(string_views(a@).len() != string_views(b@).len());
        return false;
    }
    let mut i: usize = 0;
    while i < a.len()
        invariant
            i <= a@.len(),
            a@.len() == b@.len(),
            forall|k: int| 0 <= k < i ==> a@[k]@ == b@[k]@,
        decreases a@.len() - i,
    {
        if !str_eq(a[i].as_str(), b[i].as_str()) {
            assert(string_views(a@)[i as int] != string_views(b@)[i as int]);
            return false;
        }
        i = i + 1;
    }
    assert(string_views(a@) =~= string_views(b@));
    true
}

fn list_matches(old: &Option<Vec<String>>, wanted: &Option<Vec<String>>, sort: bool) -> (r: bool)
    ensures
        r == (compared_list(*old, *wanted, sort) == opt_texts(*wanted)),
{
    match wanted {
        None => true,
        Some(w) => match old {
            None => false,
            Some(v) => {
                if sort {
                    same_strings(&sorted_strings(v), w)
                } else {
                    same_strings(v, w)
                }
            },
        },
    }
}

/// Whether an existing index must be given the wanted settings.
pub fn settings_differ(old: &IndexSettings, wanted: &IndexSettings) -> (r: bool)
    ensures
        r == spec_settings_differ(*old, *wanted),
{
    let distinct_same = match &wanted.distinct_attribute {
        None => true,
        Some(w) => match &old.distinct_attribute {
            None => false,
            Some(d) => str_eq(d.as_str(), w.as_str()),
        },
    };
    let hits_same = match wanted.max_total_hits {
        None => true,
        Some(w) => match old.max_total_hits {
            None => false,
            Some(h) => h == w,
        },
    };
    !(list_matches(&old.stop_words, &wanted.stop_words, true)
        && list_matches(&old.ranking_rules, &wanted.ranking_rules, false)
        && list_matches(&old.filterable_attributes, &wanted.filterable_attributes, true)
        && list_matches(&old.sortable_attributes, &wanted.sortable_attributes, true)
        && distinct_same
        && list_matches(&old.searchable_attributes, &wanted.searchable_attributes, false)
        && list_matches(&old.displayed_attributes, &wanted.displayed_attributes, true)
        && hits_same)
}


/// An index that holds the default settings needs no update: once set, the
/// default settings (with any ranking rules) are not set again.
pub proof fn lemma_default_settings_stay(s: IndexSettings, ranking_rules: Option<Seq<Seq<char>>>)
    requires
        is_default_settings(s, ranking_rules),
    ensures
        !spec_settings_differ(s, s),
{
    lemma_sorted_texts_in_order(spec_default_displayed_attributes());
    lemma_sorted_texts_in_order(spec_default_sortable_attributes());
    lemma_sorted_texts_in_order(spec_default_faceting_attributes());
    lemma_sort_texts_in_order(spec_sort_texts(spec_default_displayed_attributes()));
    lemma_sort_texts_in_order(spec_sort_texts(spec_default_sortable_attributes()));
    lemma_sort_texts_in_order(spec_sort_texts(spec_default_faceting_attributes()));
}

} // verus!
