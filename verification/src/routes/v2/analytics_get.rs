//! Analytics (v2): which ids a request names, and how fetched figures are
//! grouped by project or version for the answer.
use vstd::prelude::*;
use crate::models::ids::{parse_base62, spec_parse_base62, spec_to_base62, to_base62, DecodingError, VersionId};
use crate::routes::ApiError;
use crate::util::pairs::{distinct_keys, lemma_pairs_map_dom, lemma_pairs_map_index, lemma_pairs_map_update, pairs_map};
use crate::util::text::str_eq;

verus! {

broadcast use vstd::string::group_string_axioms;

/// Playtime figures of one project or version at one time.
pub struct FetchedPlaytime {
    pub time: u64,
    pub total_seconds: u64,
    pub loader_seconds: Vec<(String, u64)>,
    pub game_version_seconds: Vec<(String, u64)>,
    pub parent_seconds: Vec<(VersionId, u64)>,
}

/// The dates and resolution an analytics request reads figures over; dates
/// are days counted from a fixed day.
#[derive(Debug, Clone, Copy, PartialEq, Eq, Structural)]
pub struct AnalyticsWindow {
    pub start_day: i64,
    pub end_day: i64,
    pub resolution_minutes: u32,
}

/// The window of an analytics request: from the start given, else two weeks
/// before today; to the end given, else today; by the resolution given, else
/// one day (1440 minutes).
pub fn analytics_window(start_day: Option<i64>, end_day: Option<i64>, resolution_minutes: Option<u32>, today: i64) -> (r: AnalyticsWindow)
    requires
        start_day is None ==> today >= i64::MIN + 14,
    ensures
        r.start_day == match start_day { Some(d) => d as int, None => today - 14 },
        r.end_day == match end_day { Some(d) => d, None => today },
        r.resolution_minutes == match resolution_minutes { Some(m) => m, None => 1440 },
{
    let start = match start_day {
        Some(d) => d,
        None => today - 14,
    };
    let end = match end_day {
        Some(d) => d,
        None => today,
    };
    let resolution = match resolution_minutes {
        Some(m) => m,
        None => 60 * 24,
    };
    AnalyticsWindow { start_day: start, end_day: end, resolution_minutes: resolution }
}

/// A request names projects or versions, not both.
pub fn check_id_choice(projects_given: bool, versions_given: bool) -> (r: Result<(), ApiError>)
    ensures
        r is Ok <==> !(projects_given && versions_given),
        r is Err ==> (r matches Err(ApiError::InvalidInput(m))
            && m@ == "Only one of 'project_ids' or 'version_ids' should be used."@),
{
    if projects_given && versions_given {
        return Err(ApiError::InvalidInput("Only one of 'project_ids' or 'version_ids' should be used.".to_owned()));
    }
    Ok(())
}

/// The ids of a list of base62 strings, or the error of the first one that
/// does not decode.
pub open spec fn spec_parse_ids(ids: Seq<String>) -> Result<Seq<u64>, DecodingError>
    decreases ids.len(),
{
    if ids.len() == 0 {
        Ok(Seq::empty())
    } else {
        match spec_parse_ids(ids.drop_last()) {
            Err(e) => Err(e),
            Ok(before) => match spec_parse_base62(ids.last()@) {
                Err(e) => Err(e),
                Ok(n) => Ok(before.push(n)),
            },
        }
    }
}

proof fn lemma_parse_ids_error_persists(ids: Seq<String>, k: int, j: int)
    requires
        0 <= k <= j <= ids.len(),
        spec_parse_ids(ids.take(k)) is Err,
    ensures
        spec_parse_ids(ids.take(j)) == spec_parse_ids(ids.take(k)),
    decreases j - k,
{
    if j > k {
        lemma_parse_ids_error_persists(ids, k, j - 1);
        assert(ids.take(j).drop_last() == ids.take(j - 1));
    }
}

/// The ids a request names, decoded from base62.
pub fn parse_ids(ids: &Vec<String>) -> (r: Result<Vec<u64>, ApiError>)
    ensures
        match spec_parse_ids(ids@) {
            Ok(v) => r matches Ok(w) && w@ == v,
            Err(e) => r == Err::<Vec<u64>, ApiError>(ApiError::Decoding(e)),
        },
{
    let mut out: Vec<u64> = Vec::new();
    let mut i: usize = 0;
    while i < ids.len()
        invariant
            i <= ids@.len(),
            spec_parse_ids(ids@.take(i as int)) == Ok::<Seq<u64>, DecodingError>(out@),
        decreases ids@.len() - i,
    {
        assert(ids@.take(i + 1).drop_last() == ids@.take(i as int));
        match parse_base62(ids[i].as_str()) {
            Ok(n) => out.push(n),
            Err(e) => {
                proof {
                    lemma_parse_ids_error_persists(ids@, i + 1, ids@.len() as int);
                    assert(ids@.take(ids@.len() as int) == ids@);
                }
                return Err(ApiError::Decoding(e));
            },
        }
        i = i + 1;
    }
    assert(ids@.take(ids@.len() as int) == ids@);
    Ok(out)
}

/// One fetched figure: the project or version it is about, what it is
/// counted by (a time or a country), and the figure.
pub struct AnalyticsRow {
    pub id: u64,
    pub key: String,
    pub value: u64,
}

/// The figures of one project or version (named by its base62 id), by key;
/// a later figure for the same key replaces an earlier one.
pub open spec fn spec_figures_of(rows: Seq<AnalyticsRow>, id: Seq<char>) -> Map<Seq<char>, u64>
    decreases rows.len(),
{
    if rows.len() == 0 {
        Map::empty()
    } else {
        let before = spec_figures_of(rows.drop_last(), id);
        if spec_to_base62(rows.last().id as nat) == id {
            before.insert(rows.last().key@, rows.last().value)
        } else {
            before
        }
    }
}

/// Whether some figure is about the project or version named `id`.
pub open spec fn spec_has_figures(rows: Seq<AnalyticsRow>, id: Seq<char>) -> bool {
    exists|i: int| 0 <= i < rows.len() && spec_to_base62((#[trigger] rows[i]).id as nat) == id
}

/// The answer of an analytics route: for each project or version that has
/// figures, named by its base62 id, its figures by key.
pub open spec fn spec_grouped(rows: Seq<AnalyticsRow>) -> Map<Seq<char>, Map<Seq<char>, u64>> {
    Map::new(|id: Seq<char>| spec_has_figures(rows, id), |id: Seq<char>| spec_figures_of(rows, id))
}

/// The text keys and values of figure pairs.
pub open spec fn figure_view(s: Seq<(String, u64)>) -> Seq<(Seq<char>, u64)> {
    s.map_values(|p: (String, u64)| (p.0@, p.1))
}

/// The text keys and figure maps of grouped pairs.
pub open spec fn group_view(s: Seq<(String, Vec<(String, u64)>)>) -> Seq<(Seq<char>, Map<Seq<char>, u64>)> {
    s.map_values(|p: (String, Vec<(String, u64)>)| (p.0@, pairs_map(figure_view(p.1@))))
}

fn find_key(pairs: &Vec<(String, u64)>, key: &str) -> (r: Option<usize>)
    ensures
        match r {
            Some(j) => j < pairs@.len() && pairs@[j as int].0@ == key@,
            None => forall|j: int| 0 <= j < pairs@.len() ==> (#[trigger] pairs@[j]).0@ != key@,
        },
{
    let mut j: usize = 0;
    while j < pairs.len()
        invariant
            j <= pairs@.len(),
            forall|k: int| 0 <= k < j ==> (#[trigger] pairs@[k]).0@ != key@,
        decreases pairs@.len() - j,
    {
        if str_eq(pairs[j].0.as_str(), key) {
            return Some(j);
        }
        j = j + 1;
    }
    None
}

/// Sets the figure of `key`, keeping keys distinct.
fn set_figure(pairs: &mut Vec<(String, u64)>, key: &String, value: u64)
    requires
        distinct_keys(figure_view(old(pairs)@)),
    ensures
        distinct_keys(figure_view(final(pairs)@)),
        pairs_map(figure_view(final(pairs)@)) == pairs_map(figure_view(old(pairs)@)).insert(key@, value),
{
    let ghost before = figure_view(pairs@);
    match find_key(pairs, key.as_str()) {
        Some(j) => {
            proof {
                lemma_pairs_map_update(before, j as int, value);
            }
            pairs.set(j, (key.clone(), value));
            assert(figure_view(pairs@) == before.update(j as int, (before[j as int].0, value)));
        },
        None => {
            pairs.push((key.clone(), value));
            assert(figure_view(pairs@) == before.push((key@, value)));
            assert(figure_view(pairs@).drop_last() == before);
            assert(distinct_keys(figure_view(pairs@))) by {
                assert forall|a: int, b: int| 0 <= a < b < figure_view(pairs@).len() implies
                    (#[trigger] figure_view(pairs@)[a]).0 != (#[trigger] figure_view(pairs@)[b]).0 by {
                    if b == before.len() {
                        assert(pairs@[a].0@ != key@);
                    }
                }
            }
        },
    }
}

/// The figures of one project or version, by key.
fn figures_of(rows: &[AnalyticsRow], id: &String) -> (r: Vec<(String, u64)>)
    ensures
        distinct_keys(figure_view(r@)),
        pairs_map(figure_view(r@)) == spec_figures_of(rows@, id@),
{
    let mut r: Vec<(String, u64)> = Vec::new();
    let mut t: usize = 0;
    assert(pairs_map(figure_view(r@)) =~= Map::<Seq<char>, u64>::empty());
    while t < rows.len()
        invariant
            t <= rows@.len(),
            distinct_keys(figure_view(r@)),
            pairs_map(figure_view(r@)) == spec_figures_of(rows@.take(t as int), id@),
        decreases rows@.len() - t,
    {
        assert(rows@.take(t + 1).drop_last() == rows@.take(t as int));
        let name = to_base62(rows[t].id);
        if str_eq(name.as_str(), id.as_str()) {
            set_figure(&mut r, &rows[t].key, rows[t].value);
        }
        t = t + 1;
    }
    assert(rows@.take(rows@.len() as int) == rows@);
    r
}

/// The base62 ids of the projects or versions with figures, each once, in
/// the order first met.
fn ids_with_figures(rows: &[AnalyticsRow]) -> (r: Vec<String>)
    ensures
        forall|a: int, b: int| 0 <= a < b < r@.len() ==> (#[trigger] r@[a])@ != (#[trigger] r@[b])@,
        forall|id: Seq<char>| spec_has_figures(rows@, id) <==> exists|a: int| 0 <= a < r@.len() && (#[trigger] r@[a])@ == id,
{
    let mut r: Vec<String> = Vec::new();
    let mut t: usize = 0;
    while t < rows.len()
        invariant
            t <= rows@.len(),
            forall|a: int, b: int| 0 <= a < b < r@.len() ==> (#[trigger] r@[a])@ != (#[trigger] r@[b])@,
            forall|id: Seq<char>| spec_has_figures(rows@.take(t as int), id)
                <==> exists|a: int| 0 <= a < r@.len() && (#[trigger] r@[a])@ == id,
        decreases rows@.len() - t,
    {
        let name = to_base62(rows[t].id);
        let ghost prev = rows@.take(t as int);
        let ghost next = rows@.take(t + 1);
        let ghost before = r@;
        let mut found = false;
        let mut a: usize = 0;
        while a < r.len()
            invariant
                a <= r@.len(),
                !found ==> forall|c: int| 0 <= c < a ==> (#[trigger] r@[c])@ != name@,
                found ==> exists|c: int| 0 <= c < r@.len() && (#[trigger] r@[c])@ == name@,
            decreases r@.len() - a,
        {
            if !found && str_eq(r[a].as_str(), name.as_str()) {
                found = true;
            }
            a = a + 1;
        }
        if !found {
            r.push(name);
        }
        proof {
            assert forall|id: Seq<char>| spec_has_figures(next, id)
                <==> exists|c: int| 0 <= c < r@.len() && (#[trigger] r@[c])@ == id by {
                if spec_has_figures(next, id) {
                    let i = choose|i: int| 0 <= i < next.len() && spec_to_base62((#[trigger] next[i]).id as nat) == id;
                    if i < t {
                        assert(prev[i] == next[i]);
                        assert(spec_has_figures(prev, id));
                        let c = choose|c: int| 0 <= c < before.len() && (#[trigger] before[c])@ == id;
                        assert(r@[c] == before[c]);
                    } else if !found {
                        assert(r@[before.len() as int]@ == id);
                    }
                }
                if exists|c: int| 0 <= c < r@.len() && (#[trigger] r@[c])@ == id {
                    let c = choose|c: int| 0 <= c < r@.len() && (#[trigger] r@[c])@ == id;
                    if c < before.len() {
                        assert(before[c] == r@[c]);
                        assert(spec_has_figures(prev, id));
                        let i = choose|i: int| 0 <= i < prev.len() && spec_to_base62((#[trigger] prev[i]).id as nat) == id;
                        assert(next[i] == prev[i]);
                    } else {
                        assert(next[t as int] == rows@[t as int]);
                    }
                }
            }
        }
        t = t + 1;
    }
    assert(rows@.take(rows@.len() as int) == rows@);
    r
}

/// The answer of an analytics route: fetched figures grouped by the base62
/// id of their project or version, each id once, each key once within it.
pub fn group_figures(rows: &[AnalyticsRow]) -> (r: Vec<(String, Vec<(String, u64)>)>)
    ensures
        distinct_keys(group_view(r@)),
        forall|a: int| 0 <= a < r@.len() ==> distinct_keys(figure_view((#[trigger] r@[a]).1@)),
        pairs_map(group_view(r@)) == spec_grouped(rows@),
{
    let ids = ids_with_figures(rows);
    let mut r: Vec<(String, Vec<(String, u64)>)> = Vec::new();
    let mut a: usize = 0;
    while a < ids.len()
        invariant
            a <= ids@.len(),
            r@.len() == a,
            forall|c: int, d: int| 0 <= c < d < ids@.len() ==> (#[trigger] ids@[c])@ != (#[trigger] ids@[d])@,
            forall|c: int| 0 <= c < a ==> (#[trigger] r@[c]).0@ == ids@[c]@,
            forall|c: int| 0 <= c < a ==> distinct_keys(figure_view((#[trigger] r@[c]).1@)),
            forall|c: int| 0 <= c < a ==> pairs_map(figure_view((#[trigger] r@[c]).1@)) == spec_figures_of(rows@, ids@[c]@),
        decreases ids@.len() - a,
    {
        let figures = figures_of(rows, &ids[a]);
        r.push((ids[a].clone(), figures));
        a = a + 1;
    }
    let ghost g = group_view(r@);
    assert(distinct_keys(g)) by {
        assert forall|c: int, d: int| 0 <= c < d < g.len() implies (#[trigger] g[c]).0 != (#[trigger] g[d]).0 by {
            assert(g[c].0 == ids@[c]@ && g[d].0 == ids@[d]@);
        }
    }
    assert forall|id: Seq<char>| #[trigger] pairs_map(g).contains_key(id) <==> spec_has_figures(rows@, id) by {
        lemma_pairs_map_dom(g, id);
        if spec_has_figures(rows@, id) {
            let c = choose|c: int| 0 <= c < ids@.len() && (#[trigger] ids@[c])@ == id;
            assert(g[c].0 == id);
        }
        if exists|j: int| 0 <= j < g.len() && (#[trigger] g[j]).0 == id {
            let j = choose|j: int| 0 <= j < g.len() && (#[trigger] g[j]).0 == id;
            assert(ids@[j]@ == id);
        }
    }
    assert forall|id: Seq<char>| #[trigger] pairs_map(g).contains_key(id) implies pairs_map(g)[id] == spec_figures_of(rows@, id) by {
        lemma_pairs_map_dom(g, id);
        let j = choose|j: int| 0 <= j < g.len() && (#[trigger] g[j]).0 == id;
        lemma_pairs_map_index(g, j);
    }
    assert(pairs_map(g) =~= spec_grouped(rows@));
    r
}

} // verus!
