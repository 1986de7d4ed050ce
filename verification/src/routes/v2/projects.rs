//! The v2 project routes: search facets and the link edits that v2 bodies carry.
use vstd::prelude::*;
use crate::models::projects::{MonetizationStatus, ProjectStatus};
use crate::models::v2::projects::{DonationLink, LegacySideType};
use crate::routes::v2_reroute::convert_plugin_loader_facets_v3;
use crate::routes::v2_reroute::spec_facet_group_v3;
use crate::util::text::{str_chars, str_eq, string_from_chars};

verus! {

/// The projects and versions a project depends on, in the v2 shapes (of the
/// project and version types that the caller uses).
pub struct DependencyInfo<P, V> {
    pub projects: Vec<P>,
    pub versions: Vec<V>,
}

/// Prefixes `key` to the key part of a parsed facet.
pub open spec fn prefix_facet_key(key: Seq<char>, r: Option<(Seq<char>, Seq<char>, Seq<char>)>) -> Option<(Seq<char>, Seq<char>, Seq<char>)> {
    match r {
        None => None,
        Some((k, o, v)) => Some((key + k, o, v)),
    }
}

/// A facet `key op value`: the key is every character before the first
/// operator character (`:`, `=`, `<`, `>`) with spaces dropped; the operator is
/// that character, or `<=` / `>=` where `<` or `>` is followed by `=`; the value
/// is what follows. Without an operator character there is no facet.
pub open spec fn spec_parse_facet(s: Seq<char>) -> Option<(Seq<char>, Seq<char>, Seq<char>)>
    decreases s.len(),
{
    if s.len() == 0 {
        None
    } else {
        let c = s[0];
        let rest = s.drop_first();
        if c == ':' || c == '=' {
            Some((Seq::empty(), seq![c], rest))
        } else if c == '<' || c == '>' {
            if rest.len() > 0 && rest[0] == '=' {
                Some((Seq::empty(), seq![c, '='], rest.drop_first()))
            } else {
                Some((Seq::empty(), seq![c], rest))
            }
        } else if c == ' ' {
            spec_parse_facet(rest)
        } else {
            prefix_facet_key(seq![c], spec_parse_facet(rest))
        }
    }
}

proof fn lemma_prefix_facet_key_assoc(a: Seq<char>, b: Seq<char>, r: Option<(Seq<char>, Seq<char>, Seq<char>)>)
    ensures
        prefix_facet_key(a, prefix_facet_key(b, r)) == prefix_facet_key(a + b, r),
{
    match r {
        None => {},
        Some((k, o, v)) => {
            assert(a + (b + k) == (a + b) + k);
        },
    }
}

/// Whether a character is one that ends a facet's key: `:`, `=`, `<` or `>`.
pub open spec fn is_facet_operator_char(c: char) -> bool {
    c == ':' || c == '=' || c == '<' || c == '>'
}

/// The text with its spaces dropped.
pub open spec fn without_spaces(p: Seq<char>) -> Seq<char>
    decreases p.len(),
{
    if p.len() == 0 {
        Seq::empty()
    } else if p[0] == ' ' {
        without_spaces(p.drop_first())
    } else {
        seq![p[0]] + without_spaces(p.drop_first())
    }
}

/// Whether the facet splits, after its first `n` characters, into a key part
/// without operator characters (whose spaces dropped give `k`), the operator
/// `o` and the value `v`, where a lone `<` or `>` is not followed by `=`.
pub open spec fn facet_splits_at(s: Seq<char>, n: int, k: Seq<char>, o: Seq<char>, v: Seq<char>) -> bool {
    &&& 0 <= n <= s.len()
    &&& s == s.take(n) + o + v
    &&& forall|i: int| 0 <= i < n ==> !is_facet_operator_char(#[trigger] s[i])
    &&& k == without_spaces(s.take(n))
    &&& (o == seq![':'] || o == seq!['='] || o == seq!['<'] || o == seq!['>'] || o == seq!['<', '='] || o == seq!['>', '='])
    &&& (o == seq!['<'] || o == seq!['>']) ==> !(v.len() > 0 && v[0] == '=')
}

proof fn lemma_parse_facet_split(s: Seq<char>) -> (n: int)
    ensures
        spec_parse_facet(s) matches Some((k, o, v)) ==> facet_splits_at(s, n, k, o, v),
        spec_parse_facet(s) is None <==> forall|i: int| 0 <= i < s.len() ==> !is_facet_operator_char(#[trigger] s[i]),
    decreases s.len(),
{
    if s.len() == 0 {
        return 0;
    }
    let c = s[0];
    let rest = s.drop_first();
    let n1 = lemma_parse_facet_split(rest);
    assert forall|i: int| 0 <= i < rest.len() implies rest[i] == s[i + 1] by {}
    if is_facet_operator_char(c) {
        if let Some((k, o, v)) = spec_parse_facet(s) {
            assert(s.take(0) =~= Seq::<char>::empty());
            assert(s =~= s.take(0) + o + v);
            assert(facet_splits_at(s, 0, k, o, v));
        }
        0
    } else {
        if let Some((k1, o, v)) = spec_parse_facet(rest) {
            let n = n1 + 1;
            let p = s.take(n);
            assert(p.drop_first() =~= rest.take(n1));
            assert(p[0] == c);
            let k = if c == ' ' { k1 } else { seq![c] + k1 };
            assert(spec_parse_facet(s) == Some((k, o, v)));
            assert(without_spaces(p) == k);
            assert(s =~= p + o + v) by {
                assert(rest =~= rest.take(n1) + o + v);
                assert(s =~= seq![c] + rest);
            }
            assert forall|i: int| 0 <= i < n implies !is_facet_operator_char(#[trigger] s[i]) by {
                if i > 0 {
                    assert(s[i] == rest[i - 1]);
                }
            }
            assert(facet_splits_at(s, n, k, o, v));
        } else {
            assert forall|i: int| 0 <= i < s.len() implies !is_facet_operator_char(#[trigger] s[i]) by {
                if i > 0 {
                    assert(s[i] == rest[i - 1]);
                }
            }
        }
        if spec_parse_facet(s) is None {
            assert(spec_parse_facet(rest) is None);
        }
        n1 + 1
    }
}

/// A parsed facet is its key part (spaces dropped), its operator and its
/// value, in that order, the key part holding no operator character; a text
/// without any operator character gives no facet.
pub proof fn lemma_parse_facet_shape(s: Seq<char>)
    ensures
        spec_parse_facet(s) matches Some((k, o, v)) ==> exists|n: int| #[trigger] facet_splits_at(s, n, k, o, v),
        spec_parse_facet(s) is None <==> forall|i: int| 0 <= i < s.len() ==> !is_facet_operator_char(#[trigger] s[i]),
{
    let n = lemma_parse_facet_split(s);
    if let Some((k, o, v)) = spec_parse_facet(s) {
        assert(facet_splits_at(s, n, k, o, v));
    }
}

/// Parses a facet into a key, an operator and a value.
pub fn parse_facet(facet: &str) -> (r: Option<(String, String, String)>)
    ensures
        match r {
            None => spec_parse_facet(facet@) is None,
            Some((k, o, v)) => spec_parse_facet(facet@) == Some((k@, o@, v@)),
        },
{
    let chars = str_chars(facet);
    let mut key: Vec<char> = Vec::new();
    let mut i: usize = 0;
    proof {
        assert(chars@.skip(0) == chars@);
        match spec_parse_facet(chars@) {
            None => {},
            Some((k, o, v)) => { assert(Seq::<char>::empty() + k == k); },
        }
    }
    while i < chars.len()
        invariant
            chars@ == facet@,
            i <= chars@.len(),
            spec_parse_facet(facet@) == prefix_facet_key(key@, spec_parse_facet(chars@.skip(i as int))),
        decreases chars@.len() - i,
    {
        let c = chars[i];
        let ghost s = chars@.skip(i as int);
        assert(s[0] == c);
        assert(s.drop_first() == chars@.skip(i + 1));
        if c == ':' || c == '=' {
            let mut op: Vec<char> = Vec::new();
            op.push(c);
            let val = string_from_chars(chars.as_slice().split_at(i + 1).1);
            proof {
                assert(chars@.subrange(i + 1, chars@.len() as int) == s.drop_first());
                assert(key@ + Seq::<char>::empty() == key@);
            }
            return Some((string_from_chars(key.as_slice()), string_from_chars(op.as_slice()), val));
        } else if c == '<' || c == '>' {
            let mut op: Vec<char> = Vec::new();
            op.push(c);
            let mut start = i + 1;
            if i + 1 < chars.len() && chars[i + 1] == '=' {
                op.push('=');
                start = i + 2;
            }
            let val = string_from_chars(chars.as_slice().split_at(start).1);
            proof {
                assert(key@ + Seq::<char>::empty() == key@);
                if start == i + 2 {
                    assert(chars@.subrange(start as int, chars@.len() as int) == s.drop_first().drop_first());
                    assert(op@ == seq![c, '=']);
                } else {
                    assert(chars@.subrange(start as int, chars@.len() as int) == s.drop_first());
                    assert(op@ == seq![c]);
                }
            }
            return Some((string_from_chars(key.as_slice()), string_from_chars(op.as_slice()), val));
        } else if c == ' ' {
            proof {
                assert(spec_parse_facet(s) == spec_parse_facet(chars@.skip(i + 1)));
            }
        } else {
            proof {
                assert(spec_parse_facet(s) == prefix_facet_key(seq![c], spec_parse_facet(chars@.skip(i + 1))));
                lemma_prefix_facet_key_assoc(key@, seq![c], spec_parse_facet(chars@.skip(i + 1)));
                assert(key@ + seq![c] == key@.push(c));
            }
            key.push(c);
        }
        i = i + 1;
    }
    assert(chars@.skip(i as int).len() == 0);
    None
}

/// The v3 name of a v2 facet key.
pub open spec fn spec_v3_facet_key(key: Seq<char>) -> Seq<char> {
    if key == "versions"@ {
        "game_versions"@
    } else if key == "project_type"@ {
        "project_types"@
    } else if key == "title"@ {
        "name"@
    } else {
        key
    }
}

/// A v2 facet written for v3 search: its key renamed, its operator and value
/// kept (spaces in the key dropped); a string that is no facet stays as it is.
pub open spec fn spec_v3_facet(facet: Seq<char>) -> Seq<char> {
    match spec_parse_facet(facet) {
        Some((k, o, v)) => spec_v3_facet_key(k) + o + v,
        None => facet,
    }
}

/// Whether a facet key is one that v3 search names otherwise.
pub open spec fn is_renamed_facet_key(key: Seq<char>) -> bool {
    key == "versions"@ || key == "project_type"@ || key == "title"@
}

/// v3 search renames exactly three facet keys: `versions` to
/// `game_versions`, `project_type` to `project_types` and `title` to `name`;
/// every other key stays as it is.
pub proof fn lemma_v3_facet_key_renaming(key: Seq<char>)
    ensures
        key == "versions"@ ==> spec_v3_facet_key(key) == "game_versions"@,
        key == "project_type"@ ==> spec_v3_facet_key(key) == "project_types"@,
        key == "title"@ ==> spec_v3_facet_key(key) == "name"@,
        !is_renamed_facet_key(key) ==> spec_v3_facet_key(key) == key,
{
    reveal_strlit("versions");
    reveal_strlit("project_type");
    reveal_strlit("title");
    assert("project_type"@.len() != "versions"@.len());
    assert("title"@.len() != "versions"@.len() && "title"@.len() != "project_type"@.len());
}

proof fn lemma_without_spaces_unchanged(p: Seq<char>)
    requires
        !p.contains(' '),
    ensures
        without_spaces(p) == p,
    decreases p.len(),
{
    if p.len() > 0 {
        let rest = p.drop_first();
        assert(!rest.contains(' ')) by {
            if rest.contains(' ') {
                let k = choose|k: int| 0 <= k < rest.len() && rest[k] == ' ';
                assert(p[k + 1] == ' ');
            }
        }
        lemma_without_spaces_unchanged(rest);
        assert(p[0] != ' ');
        assert(p =~= seq![p[0]] + rest);
    }
}

/// A v2 facet without spaces whose key is not one of the three renamed keys
/// is the same facet in v3 search; one whose key is renamed keeps its
/// operator and value after the new key.
pub proof fn lemma_v3_facet_keeps_other_keys(facet: Seq<char>)
    ensures
        spec_parse_facet(facet) matches Some((k, o, v)) ==> (
            !is_renamed_facet_key(k) && !facet.contains(' ') ==> spec_v3_facet(facet) == facet),
        spec_parse_facet(facet) matches Some((k, o, v)) ==> spec_v3_facet(facet) == spec_v3_facet_key(k) + o + v,
        spec_parse_facet(facet) is None ==> spec_v3_facet(facet) == facet,
{
    let n = lemma_parse_facet_split(facet);
    if let Some((k, o, v)) = spec_parse_facet(facet) {
        if !is_renamed_facet_key(k) && !facet.contains(' ') {
            let p = facet.take(n);
            assert(facet_splits_at(facet, n, k, o, v));
            assert(!p.contains(' ')) by {
                if p.contains(' ') {
                    let j = choose|j: int| 0 <= j < p.len() && p[j] == ' ';
                    assert(facet[j] == ' ');
                }
            }
            lemma_without_spaces_unchanged(p);
            assert(spec_v3_facet(facet) == k + o + v);
            assert(k + o + v =~= p + o + v);
        }
    }
}

fn v3_facet_key(key: String) -> (r: String)
    ensures
        r@ == spec_v3_facet_key(key@),
{
    if str_eq(key.as_str(), "versions") {
        "game_versions".to_owned()
    } else if str_eq(key.as_str(), "project_type") {
        "project_types".to_owned()
    } else if str_eq(key.as_str(), "title") {
        "name".to_owned()
    } else {
        key
    }
}

/// Rewrites one v2 search facet for v3 search.
pub fn v3_facet(facet: &str) -> (r: String)
    ensures
        r@ == spec_v3_facet(facet@),
{
    match parse_facet(facet) {
        Some((key, operator, val)) => {
            let k = str_chars(v3_facet_key(key).as_str());
            let mut all = k;
            let o = str_chars(operator.as_str());
            let v = str_chars(val.as_str());
            let mut j: usize = 0;
            let ghost k0 = all@;
            while j < o.len()
                invariant
                    j <= o@.len(),
                    all@ == k0 + o@.take(j as int),
                decreases o@.len() - j,
            {
                all.push(o[j]);
                assert(o@.take(j + 1) == o@.take(j as int).push(o@[j as int]));
                j = j + 1;
            }
            assert(o@.take(o@.len() as int) == o@);
            let ghost ko = all@;
            j = 0;
            while j < v.len()
                invariant
                    j <= v@.len(),
                    all@ == ko + v@.take(j as int),
                decreases v@.len() - j,
            {
                all.push(v[j]);
                assert(v@.take(j + 1) == v@.take(j as int).push(v@[j as int]));
                j = j + 1;
            }
            assert(v@.take(v@.len() as int) == v@);
            string_from_chars(all.as_slice())
        },
        None => facet.to_owned(),
    }
}

/// The facet groups of a v2 search, rewritten for v3: `project_type:mod`
/// widened to plugins and datapacks, then each facet's key renamed.
pub open spec fn spec_v3_facets(facets: Seq<Seq<Seq<char>>>) -> Seq<Seq<Seq<char>>> {
    facets.map_values(|g: Seq<Seq<char>>| spec_facet_group_v3(g).map_values(|f: Seq<char>| spec_v3_facet(f)))
}

/// Rewrites the facet groups of a v2 search request for v3 search.
pub fn v3_facets(facets: Vec<Vec<String>>) -> (r: Vec<Vec<String>>)
    ensures
        r.deep_view() == spec_v3_facets(facets.deep_view()),
{
    let widened = convert_plugin_loader_facets_v3(facets);
    let mut out: Vec<Vec<String>> = Vec::new();
    let mut i: usize = 0;
    while i < widened.len()
        invariant
            i <= widened@.len(),
            widened.deep_view() == facets.deep_view().map_values(|g: Seq<Seq<char>>| spec_facet_group_v3(g)),
            out.deep_view() == widened.deep_view().take(i as int).map_values(|g: Seq<Seq<char>>| g.map_values(|f: Seq<char>| spec_v3_facet(f))),
        decreases widened@.len() - i,
    {
        let group = &widened[i];
        let mut renamed: Vec<String> = Vec::new();
        let mut j: usize = 0;
        while j < group.len()
            invariant
                j <= group@.len(),
                renamed.deep_view() == group.deep_view().take(j as int).map_values(|f: Seq<char>| spec_v3_facet(f)),
            decreases group@.len() - j,
        {
            let ghost prev = renamed.deep_view();
            let f = v3_facet(group[j].as_str());
            renamed.push(f);
            proof {
                assert(renamed.deep_view() =~= prev.push(spec_v3_facet(group.deep_view()[j as int])));
                assert(group.deep_view().take(j + 1) == group.deep_view().take(j as int).push(group.deep_view()[j as int]));
                assert(renamed.deep_view() =~= group.deep_view().take(j + 1).map_values(|f: Seq<char>| spec_v3_facet(f)));
            }
            j = j + 1;
        }
        assert(group.deep_view().take(group@.len() as int) == group.deep_view());
        let ghost prev = out.deep_view();
        out.push(renamed);
        proof {
            assert(widened.deep_view()[i as int] == group.deep_view());
            assert(out.deep_view() =~= prev.push(group.deep_view().map_values(|f: Seq<char>| spec_v3_facet(f))));
            assert(widened.deep_view().take(i + 1) == widened.deep_view().take(i as int).push(widened.deep_view()[i as int]));
            assert(out.deep_view() =~= widened.deep_view().take(i + 1).map_values(|g: Seq<Seq<char>>| g.map_values(|f: Seq<char>| spec_v3_facet(f))));
        }
        i = i + 1;
    }
    assert(widened.deep_view().take(widened@.len() as int) == widened.deep_view());
    assert(out.deep_view() =~= spec_v3_facets(facets.deep_view()));
    out
}

/// The text of an optional string.
pub open spec fn opt_string_view(o: Option<String>) -> Option<Seq<char>> {
    match o {
        Some(s) => Some(s@),
        None => None,
    }
}

/// The view of a list of link edits: platform name and new url, `None` for removal.
pub open spec fn link_edits_view(v: Seq<(String, Option<String>)>) -> Seq<(Seq<char>, Option<Seq<char>>)> {
    v.map_values(|e: (String, Option<String>)| (e.0@, opt_string_view(e.1)))
}

/// The link map that applying the edits in order gives (a later edit of a
/// platform wins).
pub open spec fn apply_link_edits(edits: Seq<(Seq<char>, Option<Seq<char>>)>) -> Map<Seq<char>, Option<Seq<char>>>
    decreases edits.len(),
{
    if edits.len() == 0 {
        Map::empty()
    } else {
        apply_link_edits(edits.drop_last()).insert(edits.last().0, edits.last().1)
    }
}

/// The edit for one url field of a v2 body: nothing when absent, else set or clear.
pub open spec fn url_field_edits(key: Seq<char>, field: Option<Option<String>>) -> Seq<(Seq<char>, Option<Seq<char>>)> {
    match field {
        None => Seq::empty(),
        Some(u) => seq![(key, opt_string_view(u))],
    }
}

/// Clearing every listed platform.
pub open spec fn clear_edits(names: Seq<String>) -> Seq<(Seq<char>, Option<Seq<char>>)> {
    names.map_values(|n: String| (n@, None::<Seq<char>>))
}

/// Setting each donation link's platform to its url.
pub open spec fn donation_set_edits(links: Seq<DonationLink>) -> Seq<(Seq<char>, Option<Seq<char>>)> {
    links.map_values(|d: DonationLink| (d.id@, Some(d.url@)))
}

/// Clearing each donation link's platform.
pub open spec fn donation_clear_edits(links: Seq<DonationLink>) -> Seq<(Seq<char>, Option<Seq<char>>)> {
    links.map_values(|d: DonationLink| (d.id@, None::<Seq<char>>))
}

fn push_url_field(edits: &mut Vec<(String, Option<String>)>, key: &str, field: Option<Option<String>>)
    ensures
        link_edits_view(final(edits)@) == link_edits_view(old(edits)@) + url_field_edits(key@, field),
{
    let ghost before = edits@;
    match field {
        None => {
            assert(link_edits_view(edits@) =~= link_edits_view(before) + url_field_edits(key@, field));
        },
        Some(u) => {
            edits.push((key.to_owned(), u));
            assert(link_edits_view(edits@) =~= link_edits_view(before) + url_field_edits(key@, field));
        },
    }
}

fn push_clears(edits: &mut Vec<(String, Option<String>)>, names: &Vec<String>)
    ensures
        link_edits_view(final(edits)@) == link_edits_view(old(edits)@) + clear_edits(names@),
{
    let ghost start = link_edits_view(edits@);
    let mut i: usize = 0;
    while i < names.len()
        invariant
            i <= names@.len(),
            link_edits_view(edits@) == start + clear_edits(names@.take(i as int)),
        decreases names@.len() - i,
    {
        let ghost before = edits@;
        edits.push((names[i].clone(), None));
        proof {
            assert(names@.take(i + 1) == names@.take(i as int).push(names@[i as int]));
            assert(link_edits_view(edits@) =~= link_edits_view(before).push((names@[i as int]@, None::<Seq<char>>)));
            assert(clear_edits(names@.take(i + 1)) =~= clear_edits(names@.take(i as int)).push((names@[i as int]@, None::<Seq<char>>)));
            assert(link_edits_view(edits@) =~= start + clear_edits(names@.take(i + 1)));
        }
        i = i + 1;
    }
    assert(names@.take(names@.len() as int) == names@);
}

fn push_donation_sets(edits: &mut Vec<(String, Option<String>)>, links: &Vec<DonationLink>)
    ensures
        link_edits_view(final(edits)@) == link_edits_view(old(edits)@) + donation_set_edits(links@),
{
    let ghost start = link_edits_view(edits@);
    let mut i: usize = 0;
    while i < links.len()
        invariant
            i <= links@.len(),
            link_edits_view(edits@) == start + donation_set_edits(links@.take(i as int)),
        decreases links@.len() - i,
    {
        let ghost before = edits@;
        edits.push((links[i].id.clone(), Some(links[i].url.clone())));
        proof {
            let d = links@[i as int];
            assert(links@.take(i + 1) == links@.take(i as int).push(d));
            assert(link_edits_view(edits@) =~= link_edits_view(before).push((d.id@, Some(d.url@))));
            assert(donation_set_edits(links@.take(i + 1)) =~= donation_set_edits(links@.take(i as int)).push((d.id@, Some(d.url@))));
            assert(link_edits_view(edits@) =~= start + donation_set_edits(links@.take(i + 1)));
        }
        i = i + 1;
    }
    assert(links@.take(links@.len() as int) == links@);
}

fn push_donation_clears(edits: &mut Vec<(String, Option<String>)>, links: &Vec<DonationLink>)
    ensures
        link_edits_view(final(edits)@) == link_edits_view(old(edits)@) + donation_clear_edits(links@),
{
    let ghost start = link_edits_view(edits@);
    let mut i: usize = 0;
    while i < links.len()
        invariant
            i <= links@.len(),
            link_edits_view(edits@) == start + donation_clear_edits(links@.take(i as int)),
        decreases links@.len() - i,
    {
        let ghost before = edits@;
        edits.push((links[i].id.clone(), None));
        proof {
            let d = links@[i as int];
            assert(links@.take(i + 1) == links@.take(i as int).push(d));
            assert(link_edits_view(edits@) =~= link_edits_view(before).push((d.id@, None::<Seq<char>>)));
            assert(donation_clear_edits(links@.take(i + 1)) =~= donation_clear_edits(links@.take(i as int)).push((d.id@, None::<Seq<char>>)));
            assert(link_edits_view(edits@) =~= start + donation_clear_edits(links@.take(i + 1)));
        }
        i = i + 1;
    }
    assert(links@.take(links@.len() as int) == links@);
}

/// The link edits of a v2 project edit: the issues, source, wiki and discord
/// urls where given, then, where donation links are given, every current
/// donation platform cleared and each given link set.
pub open spec fn spec_v2_edit_link_urls(
    issues_url: Option<Option<String>>,
    source_url: Option<Option<String>>,
    wiki_url: Option<Option<String>>,
    discord_url: Option<Option<String>>,
    donation_urls: Option<Seq<DonationLink>>,
    current_donation_platforms: Seq<String>,
) -> Seq<(Seq<char>, Option<Seq<char>>)> {
    url_field_edits("issues"@, issues_url) + url_field_edits("source"@, source_url)
        + url_field_edits("wiki"@, wiki_url) + url_field_edits("discord"@, discord_url)
        + match donation_urls {
            None => Seq::empty(),
            Some(links) => clear_edits(current_donation_platforms) + donation_set_edits(links),
        }
}

/// The items of an optional list.
pub open spec fn opt_vec_view<T>(o: Option<Vec<T>>) -> Option<Seq<T>> {
    match o {
        Some(v) => Some(v@),
        None => None,
    }
}

/// The v3 link edits for a v2 project edit; `current_donation_platforms` are
/// the platforms of the project's donation links now (read only where
/// donation links are given).
pub fn v2_edit_link_urls(
    issues_url: Option<Option<String>>,
    source_url: Option<Option<String>>,
    wiki_url: Option<Option<String>>,
    discord_url: Option<Option<String>>,
    donation_urls: Option<Vec<DonationLink>>,
    current_donation_platforms: Vec<String>,
) -> (r: Vec<(String, Option<String>)>)
    ensures
        link_edits_view(r@) == spec_v2_edit_link_urls(issues_url, source_url, wiki_url, discord_url,
            opt_vec_view(donation_urls), current_donation_platforms@),
{
    let mut edits: Vec<(String, Option<String>)> = Vec::new();
    assert(link_edits_view(edits@) =~= Seq::empty());
    push_url_field(&mut edits, "issues", issues_url);
    push_url_field(&mut edits, "source", source_url);
    push_url_field(&mut edits, "wiki", wiki_url);
    push_url_field(&mut edits, "discord", discord_url);
    let ghost after_urls = link_edits_view(edits@);
    if let Some(links) = donation_urls {
        push_clears(&mut edits, &current_donation_platforms);
        push_donation_sets(&mut edits, &links);
        assert(link_edits_view(edits@) =~= after_urls + (clear_edits(current_donation_platforms@) + donation_set_edits(links@)));
    } else {
        assert(link_edits_view(edits@) =~= after_urls + Seq::empty());
    }
    edits
}

/// A bulk edit of projects (v2 body).
pub struct BulkEditProject {
    pub categories: Option<Vec<String>>,
    pub add_categories: Option<Vec<String>>,
    pub remove_categories: Option<Vec<String>>,
    pub additional_categories: Option<Vec<String>>,
    pub add_additional_categories: Option<Vec<String>>,
    pub remove_additional_categories: Option<Vec<String>>,
    pub donation_urls: Option<Vec<DonationLink>>,
    pub add_donation_urls: Option<Vec<DonationLink>>,
    pub remove_donation_urls: Option<Vec<DonationLink>>,
    pub issues_url: Option<Option<String>>,
    pub source_url: Option<Option<String>>,
    pub wiki_url: Option<Option<String>>,
    pub discord_url: Option<Option<String>>,
}

/// The link edits of a v2 bulk edit: where donation links are set, every
/// donation platform cleared and each given link set; then the removed
/// donation links cleared, the added ones set; then the issues, source, wiki
/// and discord urls where given.
pub open spec fn spec_bulk_edit_link_urls(edit: BulkEditProject, donation_platforms: Seq<String>) -> Seq<(Seq<char>, Option<Seq<char>>)> {
    (match edit.donation_urls {
        None => Seq::empty(),
        Some(links) => clear_edits(donation_platforms) + donation_set_edits(links@),
    }) + (match edit.remove_donation_urls {
        None => Seq::empty(),
        Some(links) => donation_clear_edits(links@),
    }) + (match edit.add_donation_urls {
        None => Seq::empty(),
        Some(links) => donation_set_edits(links@),
    }) + url_field_edits("issues"@, edit.issues_url) + url_field_edits("source"@, edit.source_url)
        + url_field_edits("wiki"@, edit.wiki_url) + url_field_edits("discord"@, edit.discord_url)
}

/// The v3 link edits for a v2 bulk edit; `donation_platforms` are the names
/// of all platforms that take donations (read only where donation links are set).
pub fn bulk_edit_link_urls(edit: &BulkEditProject, donation_platforms: &Vec<String>) -> (r: Vec<(String, Option<String>)>)
    ensures
        link_edits_view(r@) == spec_bulk_edit_link_urls(*edit, donation_platforms@),
{
    let mut edits: Vec<(String, Option<String>)> = Vec::new();
    assert(link_edits_view(edits@) =~= Seq::empty());
    let ghost s0 = link_edits_view(edits@);
    if let Some(links) = &edit.donation_urls {
        push_clears(&mut edits, donation_platforms);
        push_donation_sets(&mut edits, links);
    }
    let ghost s1 = link_edits_view(edits@);
    assert(s1 =~= s0 + match edit.donation_urls {
        None => Seq::empty(),
        Some(links) => clear_edits(donation_platforms@) + donation_set_edits(links@),
    });
    if let Some(links) = &edit.remove_donation_urls {
        push_donation_clears(&mut edits, links);
    }
    let ghost s2 = link_edits_view(edits@);
    assert(s2 =~= s1 + match edit.remove_donation_urls {
        None => Seq::empty(),
        Some(links) => donation_clear_edits(links@),
    });
    if let Some(links) = &edit.add_donation_urls {
        push_donation_sets(&mut edits, links);
    }
    let ghost s3 = link_edits_view(edits@);
    assert(s3 =~= s2 + match edit.add_donation_urls {
        None => Seq::empty(),
        Some(links) => donation_set_edits(links@),
    });
    push_url_field(&mut edits, "issues", clone_url_field(&edit.issues_url));
    push_url_field(&mut edits, "source", clone_url_field(&edit.source_url));
    push_url_field(&mut edits, "wiki", clone_url_field(&edit.wiki_url));
    push_url_field(&mut edits, "discord", clone_url_field(&edit.discord_url));
    assert(link_edits_view(edits@) =~= spec_bulk_edit_link_urls(*edit, donation_platforms@));
    edits
}

proof fn lemma_apply_last_edit(edits: Seq<(Seq<char>, Option<Seq<char>>)>, i: int)
    requires
        0 <= i < edits.len(),
        forall|j: int| i < j < edits.len() ==> edits[j].0 != edits[i].0,
    ensures
        apply_link_edits(edits).contains_key(edits[i].0),
        apply_link_edits(edits)[edits[i].0] == edits[i].1,
    decreases edits.len(),
{
    if i < edits.len() - 1 {
        let init = edits.drop_last();
        assert forall|j: int| i < j < init.len() implies init[j].0 != init[i].0 by {
            assert(init[j] == edits[j]);
        }
        lemma_apply_last_edit(init, i);
        assert(init[i] == edits[i]);
    }
}

/// Setting donation links in a v2 edit: each given link's platform ends up
/// with that link's url, unless a later given link names the same platform.
pub proof fn lemma_v2_donation_links_set(
    issues_url: Option<Option<String>>,
    source_url: Option<Option<String>>,
    wiki_url: Option<Option<String>>,
    discord_url: Option<Option<String>>,
    links: Seq<DonationLink>,
    current_donation_platforms: Seq<String>,
    i: int,
)
    requires
        0 <= i < links.len(),
        forall|j: int| i < j < links.len() ==> links[j].id@ != links[i].id@,
    ensures
        ({
            let m = apply_link_edits(spec_v2_edit_link_urls(issues_url, source_url, wiki_url, discord_url,
                Some(links), current_donation_platforms));
            m.contains_key(links[i].id@) && m[links[i].id@] == Some(links[i].url@)
        }),
{
    let e = spec_v2_edit_link_urls(issues_url, source_url, wiki_url, discord_url, Some(links), current_donation_platforms);
    let sets = donation_set_edits(links);
    let prefix_len = e.len() - sets.len();
    assert(e == e.subrange(0, prefix_len) + sets);
    let k = prefix_len + i;
    assert(e[k] == sets[i]);
    assert forall|j: int| k < j < e.len() implies e[j].0 != e[k].0 by {
        assert(e[j] == sets[j - prefix_len]);
    }
    lemma_apply_last_edit(e, k);
}

/// Setting donation links in a v2 edit clears every current donation
/// platform that none of the given links names.
pub proof fn lemma_v2_donation_links_reset(
    issues_url: Option<Option<String>>,
    source_url: Option<Option<String>>,
    wiki_url: Option<Option<String>>,
    discord_url: Option<Option<String>>,
    links: Seq<DonationLink>,
    current_donation_platforms: Seq<String>,
    c: int,
)
    requires
        0 <= c < current_donation_platforms.len(),
        forall|j: int| 0 <= j < links.len() ==> links[j].id@ != current_donation_platforms[c]@,
    ensures
        ({
            let m = apply_link_edits(spec_v2_edit_link_urls(issues_url, source_url, wiki_url, discord_url,
                Some(links), current_donation_platforms));
            m.contains_key(current_donation_platforms[c]@) && m[current_donation_platforms[c]@] is None
        }),
{
    let e = spec_v2_edit_link_urls(issues_url, source_url, wiki_url, discord_url, Some(links), current_donation_platforms);
    let sets = donation_set_edits(links);
    let clears = clear_edits(current_donation_platforms);
    let urls_len = e.len() - sets.len() - clears.len();
    assert(e == e.subrange(0, urls_len) + clears + sets);
    let p = current_donation_platforms[c]@;
    // the last edit of p among the clears
    let ghost last = choose|k: int| 0 <= k < clears.len() && clears[k].0 == p
        && forall|j: int| k < j < clears.len() ==> clears[j].0 != p;
    assert(exists|k: int| 0 <= k < clears.len() && clears[k].0 == p
        && forall|j: int| k < j < clears.len() ==> clears[j].0 != p) by {
        lemma_last_occurrence(clears, p, c);
    }
    let k = urls_len + last;
    assert(e[k] == clears[last]);
    assert forall|j: int| k < j < e.len() implies e[j].0 != e[k].0 by {
        if j < urls_len + clears.len() {
            assert(e[j] == clears[j - urls_len]);
        } else {
            assert(e[j] == sets[j - urls_len - clears.len()]);
        }
    }
    lemma_apply_last_edit(e, k);
}

proof fn lemma_last_occurrence(s: Seq<(Seq<char>, Option<Seq<char>>)>, p: Seq<char>, c: int)
    requires
        0 <= c < s.len(),
        s[c].0 == p,
    ensures
        exists|k: int| 0 <= k < s.len() && s[k].0 == p && forall|j: int| k < j < s.len() ==> s[j].0 != p,
    decreases s.len() - c,
{
    if exists|j: int| c < j < s.len() && s[j].0 == p {
        let j = choose|j: int| c < j < s.len() && s[j].0 == p;
        lemma_last_occurrence(s, p, j);
    } else {
        assert(forall|j: int| c < j < s.len() ==> s[j].0 != p);
    }
}

fn clone_url_field(f: &Option<Option<String>>) -> (r: Option<Option<String>>)
    ensures
        r == *f,
{
    match f {
        None => None,
        Some(None) => Some(None),
        Some(Some(u)) => Some(Some(u.clone())),
    }
}

/// How many random projects to list.
pub struct RandomProjects {
    pub count: u32,
}

/// An edit of a project (v2): the v3 edit with the sides a mod runs on.
pub struct EditProject {
    pub title: Option<String>,
    pub description: Option<String>,
    pub body: Option<String>,
    pub categories: Option<Vec<String>>,
    pub additional_categories: Option<Vec<String>>,
    pub issues_url: Option<Option<String>>,
    pub source_url: Option<Option<String>>,
    pub wiki_url: Option<Option<String>>,
    pub license_url: Option<Option<String>>,
    pub discord_url: Option<Option<String>>,
    pub donation_urls: Option<Vec<DonationLink>>,
    pub license_id: Option<String>,
    pub client_side: Option<LegacySideType>,
    pub server_side: Option<LegacySideType>,
    pub slug: Option<String>,
    pub status: Option<ProjectStatus>,
    pub requested_status: Option<Option<ProjectStatus>>,
    pub moderation_message: Option<Option<String>>,
    pub moderation_message_body: Option<Option<String>>,
    pub monetization_status: Option<MonetizationStatus>,
}

/// The file extension of an uploaded icon.
pub struct FileExt {
    pub ext: String,
}

/// A new gallery image: whether it is featured, its title and description,
/// and its place in the gallery.
pub struct GalleryCreateQuery {
    pub featured: bool,
    pub title: Option<String>,
    pub description: Option<String>,
    pub ordering: Option<i64>,
}

/// An edit of a gallery image, found by its address.
pub struct GalleryEditQuery {
    /// The address of the gallery image to edit.
    pub url: String,
    pub featured: Option<bool>,
    pub title: Option<Option<String>>,
    pub description: Option<Option<String>>,
    pub ordering: Option<i64>,
}

/// The gallery image to delete, by its address.
pub struct GalleryDeleteQuery {
    pub url: String,
}

} // verus!
