//! Authentication decisions: how a request's credentials are read and who may
//! see hidden projects and versions.
use vstd::prelude::*;
use crate::models::ids::DecodingError;
use crate::util::text::{str_chars, string_from_chars};

verus! {

/// A user as the identity service describes it.
pub struct MinosUser {
    /// The unique name the identity service generated.
    pub id: String,
    pub username: String,
    pub email: String,
    /// The real name, if given.
    pub name: Option<String>,
    pub github_id: Option<i64>,
    pub discord_id: Option<String>,
    pub google_id: Option<String>,
    pub gitlab_id: Option<String>,
    pub microsoft_id: Option<String>,
    pub apple_id: Option<String>,
}

/// Why a request could not be authenticated.
#[derive(Debug)]
pub enum AuthenticationError {
    /// A personal access token that is no valid base62.
    Decoding(DecodingError),
    /// The credentials are not valid.
    InvalidCredentials,
    /// The credentials are of a kind that is not accepted.
    InvalidAuthMethod,
}

/// The scheme word that opens a bearer token.
pub open spec fn bearer_prefix() -> Seq<char> {
    seq!['B', 'e', 'a', 'r', 'e', 'r', ' ']
}

/// The prefix of a personal access token.
pub open spec fn pat_prefix() -> Seq<char> {
    seq!['m', 'o', 'd', '_']
}

/// Whether a token opens with the bearer scheme word.
pub open spec fn has_bearer_prefix(t: Seq<char>) -> bool {
    t.len() >= 7 && t.take(7) == bearer_prefix()
}

/// The token with every leading `Bearer ` removed.
pub open spec fn strip_bearer(t: Seq<char>) -> Seq<char>
    decreases t.len(),
{
    if has_bearer_prefix(t) {
        strip_bearer(t.skip(7))
    } else {
        t
    }
}

/// The token to look up as a personal access token: a bearer token is
/// accepted only when what follows the `Bearer ` prefixes starts with `mod_`.
pub open spec fn spec_bearer_token_pat(t: Seq<char>) -> Result<Seq<char>, AuthenticationError> {
    if !has_bearer_prefix(t) {
        Err(AuthenticationError::InvalidAuthMethod)
    } else {
        let r = strip_bearer(t);
        if r.len() >= 4 && r.take(4) == pat_prefix() {
            Ok(r)
        } else {
            Err(AuthenticationError::InvalidAuthMethod)
        }
    }
}

/// The tokens on which the first four bytes after the prefixes can be split
/// off: the token then has a whole character ending at its fourth byte.
pub open spec fn bearer_token_splits(t: Seq<char>) -> bool {
    has_bearer_prefix(t) ==> (
        (strip_bearer(t).len() >= 4 && strip_bearer(t).take(4) == pat_prefix())
        || vstd::utf8::is_char_boundary(vstd::utf8::encode_utf8(strip_bearer(t)), 4)
    )
}

fn starts_with_at(chars: &Vec<char>, start: usize, prefix: &[char]) -> (r: bool)
    requires
        start <= chars@.len(),
    ensures
        r == (chars@.len() - start >= prefix@.len() && chars@.subrange(start as int, start + prefix@.len()) == prefix@),
{
    if chars.len() - start < prefix.len() {
        return false;
    }
    let mut i: usize = 0;
    while i < prefix.len()
        invariant
            start + prefix@.len() <= chars@.len(),
            chars@.len() <= usize::MAX,
            i <= prefix@.len(),
            forall|j: int| 0 <= j < i ==> chars@[start + j] == prefix@[j],
        decreases prefix@.len() - i,
    {
        if chars[start + i] != prefix[i] {
            assert(chars@.subrange(start as int, start + prefix@.len())[i as int] != prefix@[i as int]);
            return false;
        }
        i = i + 1;
    }
    assert(chars@.subrange(start as int, start + prefix@.len()) =~= prefix@);
    true
}

/// Reads the personal access token out of an `Authorization` header value.
pub fn bearer_token_pat(token: &str) -> (r: Result<String, AuthenticationError>)
    requires
        bearer_token_splits(token@),
    ensures
        match spec_bearer_token_pat(token@) {
            Ok(t) => r matches Ok(s) && s@ == t,
            Err(_) => r matches Err(AuthenticationError::InvalidAuthMethod),
        },
{
    let chars = str_chars(token);
    let bearer = ['B', 'e', 'a', 'r', 'e', 'r', ' '];
    let pat = ['m', 'o', 'd', '_'];
    assert(bearer@ == bearer_prefix());
    assert(pat@ == pat_prefix());
    proof {
        assert(chars@.skip(0) == chars@);
        assert(chars@.len() >= 7 ==> chars@.subrange(0, 7) == chars@.take(7));
    }
    if !starts_with_at(&chars, 0, bearer.as_slice()) {
        return Err(AuthenticationError::InvalidAuthMethod);
    }
    let mut start: usize = 0;
    let total: usize = chars.len();
    assert(chars@.len() == total);
    while starts_with_at(&chars, start, bearer.as_slice())
        invariant
            start <= chars@.len(),
            has_bearer_prefix(token@),
            chars@ == token@,
            bearer@ == bearer_prefix(),
            chars@.len() <= usize::MAX,
            strip_bearer(token@) == strip_bearer(chars@.skip(start as int)),
        decreases chars@.len() - start,
    {
        proof {
            let t = chars@.skip(start as int);
            assert(t.take(7) =~= chars@.subrange(start as int, start + 7));
            assert(t.skip(7) =~= chars@.skip(start + 7));
            assert(has_bearer_prefix(t));
            assert(strip_bearer(t) == strip_bearer(t.skip(7)));
        }
        start = start + 7;
    }
    proof {
        let t = chars@.skip(start as int);
        if t.len() >= 7 {
            assert(t.take(7) =~= chars@.subrange(start as int, start + 7));
        }
        assert(strip_bearer(t) == t);
        if t.len() >= 4 {
            assert(t.take(4) =~= chars@.subrange(start as int, start + 4));
        }
    }
    if starts_with_at(&chars, start, pat.as_slice()) {
        let (_, rest) = chars.as_slice().split_at(start);
        assert(rest@ == chars@.skip(start as int));
        Ok(string_from_chars(rest))
    } else {
        Err(AuthenticationError::InvalidAuthMethod)
    }
}

/// Where a request's credentials come from: a token takes precedence over cookies.
#[derive(Debug, Clone, Copy, PartialEq, Eq, Structural)]
pub enum CredentialSource {
    Token,
    Cookies,
}

/// Chooses the credentials to read: a token when there is one, else the
/// cookies; with neither, the credentials are invalid.
pub fn credential_source(has_token: bool, has_cookies: bool) -> (r: Result<CredentialSource, AuthenticationError>)
    ensures
        has_token ==> r == Ok::<CredentialSource, AuthenticationError>(CredentialSource::Token),
        !has_token && has_cookies ==> r == Ok::<CredentialSource, AuthenticationError>(CredentialSource::Cookies),
        !has_token && !has_cookies ==> r matches Err(AuthenticationError::InvalidCredentials),
{
    if has_token {
        Ok(CredentialSource::Token)
    } else if has_cookies {
        Ok(CredentialSource::Cookies)
    } else {
        Err(AuthenticationError::InvalidCredentials)
    }
}

/// Whether a moderator check passes: only moderators pass.
pub fn check_is_moderator(is_mod: bool) -> (r: Result<(), AuthenticationError>)
    ensures
        is_mod ==> r is Ok,
        !is_mod ==> r matches Err(AuthenticationError::InvalidCredentials),
{
    if is_mod { Ok(()) } else { Err(AuthenticationError::InvalidCredentials) }
}

/// The outcome of the first part of an access check.
#[derive(Debug, Clone, Copy, PartialEq, Eq, Structural)]
pub enum AuthorizationCheck {
    Authorized,
    Unauthorized,
    /// Authorized exactly when the user is on the owning team.
    CheckTeam,
}

/// Whether the user may see an item: anyone sees what is not hidden;
/// moderators see everything; another signed-in user sees a hidden item when
/// on its team; nobody else does. `user_is_mod` is `None` without a user.
pub open spec fn spec_authorization_check(hidden: bool, user_is_mod: Option<bool>) -> AuthorizationCheck {
    if !hidden {
        AuthorizationCheck::Authorized
    } else {
        match user_is_mod {
            None => AuthorizationCheck::Unauthorized,
            Some(true) => AuthorizationCheck::Authorized,
            Some(false) => AuthorizationCheck::CheckTeam,
        }
    }
}

/// The access check of one project or version, before any team lookup.
pub fn authorization_check(hidden: bool, user_is_mod: Option<bool>) -> (r: AuthorizationCheck)
    ensures
        r == spec_authorization_check(hidden, user_is_mod),
{
    if !hidden {
        AuthorizationCheck::Authorized
    } else {
        match user_is_mod {
            None => AuthorizationCheck::Unauthorized,
            Some(true) => AuthorizationCheck::Authorized,
            Some(false) => AuthorizationCheck::CheckTeam,
        }
    }
}

/// What the access filter reads of a project or version: the id it is
/// matched on (the project's id; for a version, its project's id), the
/// owning team, and whether it is hidden.
#[derive(Debug, Clone, Copy, PartialEq, Eq, Structural)]
pub struct AuthItem {
    pub id: i64,
    pub team_id: i64,
    pub hidden: bool,
}

/// A row of the team lookup: an item id the user may see through a team,
/// with the team where the lookup returns one.
#[derive(Debug, Clone, Copy, PartialEq, Eq, Structural)]
pub struct AuthRow {
    pub id: i64,
    pub team_id: Option<i64>,
}

/// Whether a row of the team lookup names the item (its id and its team).
pub open spec fn row_matches(item: AuthItem, row: AuthRow) -> bool {
    item.id == row.id && match row.team_id {
        Some(t) => item.team_id == t,
        None => true,
    }
}

/// The positions `0..n`, in order.
pub open spec fn all_indices(n: nat) -> Seq<usize> {
    Seq::new(n, |i: int| i as usize)
}

/// Items anyone may see, or everything for a moderator.
pub open spec fn visible_without_lookup(user_is_mod: Option<bool>) -> spec_fn(AuthItem) -> bool {
    |x: AuthItem| !x.hidden || user_is_mod == Some(true)
}

/// Items that need the team lookup: hidden ones, for a signed-in user who is no moderator.
pub open spec fn needs_lookup(user_is_mod: Option<bool>) -> spec_fn(AuthItem) -> bool {
    |x: AuthItem| x.hidden && user_is_mod == Some(false)
}

/// Splits the items into those returned at once and those to look up.
pub fn partition_for_authorization(items: &Vec<AuthItem>, user_is_mod: Option<bool>) -> (r: (Vec<usize>, Vec<usize>))
    ensures
        r.0@ == all_indices(items@.len()).filter(|i: usize| visible_without_lookup(user_is_mod)(items@[i as int])),
        r.1@ == all_indices(items@.len()).filter(|i: usize| needs_lookup(user_is_mod)(items@[i as int])),
{
    let mut shown: Vec<usize> = Vec::new();
    let mut check: Vec<usize> = Vec::new();
    let is_mod = match user_is_mod { Some(m) => m, None => false };
    let signed_in = match user_is_mod { Some(_) => true, None => false };
    let mut i: usize = 0;
    while i < items.len()
        invariant
            i <= items@.len(),
            is_mod == (user_is_mod == Some(true)),
            signed_in == (user_is_mod is Some),
            shown@ == all_indices(items@.len()).take(i as int).filter(|k: usize| visible_without_lookup(user_is_mod)(items@[k as int])),
            check@ == all_indices(items@.len()).take(i as int).filter(|k: usize| needs_lookup(user_is_mod)(items@[k as int])),
        decreases items@.len() - i,
    {
        let ghost all = all_indices(items@.len());
        proof {
            assert(all.take(i + 1) == all.take(i as int).push(i));
        }
        let x = items[i];
        proof {
            match user_is_mod {
                Some(b) => { if b { assert(is_mod); } else { assert(!is_mod && signed_in); } },
                None => { assert(!signed_in); },
            }
        }
        assert(visible_without_lookup(user_is_mod)(items@[i as int]) == (!x.hidden || is_mod));
        assert(needs_lookup(user_is_mod)(items@[i as int]) == (x.hidden && !is_mod && signed_in));
        if !x.hidden || is_mod {
            shown.push(i);
        } else if signed_in {
            check.push(i);
        }
        proof {
            lemma_filter_push_dispatch(all.take(i as int), i, |k: usize| visible_without_lookup(user_is_mod)(items@[k as int]));
            lemma_filter_push_dispatch(all.take(i as int), i, |k: usize| needs_lookup(user_is_mod)(items@[k as int]));
        }
        i = i + 1;
    }
    assert(all_indices(items@.len()).take(items@.len() as int) == all_indices(items@.len()));
    (shown, check)
}

proof fn lemma_filter_push_dispatch(s: Seq<usize>, x: usize, p: spec_fn(usize) -> bool)
    ensures
        p(x) ==> s.push(x).filter(p) == s.filter(p).push(x),
        !p(x) ==> s.push(x).filter(p) == s.filter(p),
{
    reveal(Seq::filter);
    assert(s.push(x).drop_last() == s);
}

/// Applying the team lookup rows in order: each row admits the waiting
/// items it matches (in their order) and they stop waiting.
pub open spec fn admit_rows(items: Seq<AuthItem>, waiting: Seq<usize>, rows: Seq<AuthRow>) -> (Seq<usize>, Seq<usize>)
    decreases rows.len(),
{
    if rows.len() == 0 {
        (Seq::empty(), waiting)
    } else {
        let (admitted, rest) = admit_rows(items, waiting, rows.drop_last());
        let row = rows.last();
        (admitted + rest.filter(|i: usize| row_matches(items[i as int], row)),
         rest.filter(|i: usize| !row_matches(items[i as int], row)))
    }
}

proof fn lemma_admitted_matched(items: Seq<AuthItem>, waiting: Seq<usize>, rows: Seq<AuthRow>)
    ensures
        forall|k: int| 0 <= k < admit_rows(items, waiting, rows).0.len() ==> {
            let i = #[trigger] admit_rows(items, waiting, rows).0[k];
            &&& waiting.contains(i)
            &&& exists|r: int| 0 <= r < rows.len() && row_matches(items[i as int], rows[r])
        },
        forall|k: int| 0 <= k < admit_rows(items, waiting, rows).1.len() ==>
            waiting.contains(#[trigger] admit_rows(items, waiting, rows).1[k]),
    decreases rows.len(),
{
    if rows.len() > 0 {
        let init = rows.drop_last();
        lemma_admitted_matched(items, waiting, init);
        let a = admit_rows(items, waiting, init).0;
        let rest = admit_rows(items, waiting, init).1;
        let row = rows.last();
        let p = |i: usize| row_matches(items[i as int], row);
        let np = |i: usize| !row_matches(items[i as int], row);
        let a2 = admit_rows(items, waiting, rows).0;
        let rest2 = admit_rows(items, waiting, rows).1;
        assert(a2 == a + rest.filter(p));
        assert(rest2 == rest.filter(np));
        assert forall|k: int| 0 <= k < a2.len() implies {
            let i = #[trigger] a2[k];
            &&& waiting.contains(i)
            &&& exists|r: int| 0 <= r < rows.len() && row_matches(items[i as int], rows[r])
        } by {
            if k < a.len() {
                assert(a2[k] == a[k]);
                let r = choose|r: int| 0 <= r < init.len() && row_matches(items[a[k] as int], init[r]);
                assert(rows[r] == init[r]);
            } else {
                let i = a2[k];
                let f = rest.filter(p);
                assert(f[k - a.len()] == i);
                assert(f.contains(i));
                rest.lemma_filter_pred(p, k - a.len());
                assert(p(f[k - a.len()]));
                rest.lemma_filter_contains_rev(p, i);
                let q = choose|q: int| 0 <= q < rest.len() && rest[q] == i;
                assert(waiting.contains(rest[q]));
                assert(row_matches(items[i as int], rows[rows.len() - 1]));
            }
        }
        assert forall|k: int| 0 <= k < rest2.len() implies waiting.contains(#[trigger] rest2[k]) by {
            let f = rest.filter(np);
            assert(f[k] == rest2[k]);
            assert(f.contains(rest2[k]));
            rest.lemma_filter_contains_rev(np, rest2[k]);
            let q = choose|q: int| 0 <= q < rest.len() && rest[q] == rest2[k];
            assert(waiting.contains(rest[q]));
        }
    }
}

/// The access filter returns nothing the user may not see: every item it
/// returns (those shown at once, then those the team lookup admits) is not
/// hidden, or the user is a moderator, or the user is signed in and a row of
/// the team lookup matches the item.
pub proof fn lemma_filter_returns_only_visible(items: Seq<AuthItem>, user_is_mod: Option<bool>, rows: Seq<AuthRow>, k: int)
    requires
        ({
            let shown = all_indices(items.len()).filter(|i: usize| visible_without_lookup(user_is_mod)(items[i as int]));
            let waiting = all_indices(items.len()).filter(|i: usize| needs_lookup(user_is_mod)(items[i as int]));
            0 <= k < (shown + admit_rows(items, waiting, rows).0).len()
        }),
    ensures
        ({
            let shown = all_indices(items.len()).filter(|i: usize| visible_without_lookup(user_is_mod)(items[i as int]));
            let waiting = all_indices(items.len()).filter(|i: usize| needs_lookup(user_is_mod)(items[i as int]));
            let i = (shown + admit_rows(items, waiting, rows).0)[k];
            &&& 0 <= i < items.len()
            &&& (spec_authorization_check(items[i as int].hidden, user_is_mod) == AuthorizationCheck::Authorized
                || (spec_authorization_check(items[i as int].hidden, user_is_mod) == AuthorizationCheck::CheckTeam
                    && exists|r: int| 0 <= r < rows.len() && row_matches(items[i as int], rows[r])))
        }),
{
    let all = all_indices(items.len());
    let vp = |i: usize| visible_without_lookup(user_is_mod)(items[i as int]);
    let np = |i: usize| needs_lookup(user_is_mod)(items[i as int]);
    let shown = all.filter(vp);
    let waiting = all.filter(np);
    let admitted = admit_rows(items, waiting, rows).0;
    let out = shown + admitted;
    let i = out[k];
    if k < shown.len() {
        assert(shown[k] == i);
        all.lemma_filter_pred(vp, k);
        assert(vp(shown[k]));
        assert(shown.contains(i));
        all.lemma_filter_contains_rev(vp, i);
        let q = choose|q: int| 0 <= q < all.len() && all[q] == i;
    } else {
        lemma_admitted_matched(items, waiting, rows);
        assert(admitted[k - shown.len()] == i);
        assert(waiting.contains(i));
        all.lemma_filter_contains_rev(np, i);
        let q2 = choose|q2: int| 0 <= q2 < all.len() && all[q2] == i;
        let q = choose|q: int| 0 <= q < waiting.len() && waiting[q] == i;
        all.lemma_filter_pred(np, q);
        assert(np(waiting[q]));
    }
}

/// Admits the waiting items that the rows of the team lookup match.
pub fn admit_team_rows(items: &Vec<AuthItem>, waiting: Vec<usize>, rows: &Vec<AuthRow>) -> (r: (Vec<usize>, Vec<usize>))
    requires
        forall|k: int| 0 <= k < waiting@.len() ==> waiting@[k] < items@.len(),
    ensures
        (r.0@, r.1@) == admit_rows(items@, waiting@, rows@),
{
    let mut admitted: Vec<usize> = Vec::new();
    let mut rest = waiting;
    let ghost w0 = rest@;
    let mut j: usize = 0;
    while j < rows.len()
        invariant
            j <= rows@.len(),
            (admitted@, rest@) == admit_rows(items@, w0, rows@.take(j as int)),
            forall|k: int| 0 <= k < rest@.len() ==> rest@[k] < items@.len(),
        decreases rows@.len() - j,
    {
        let row = rows[j];
        let ghost p = |i: usize| row_matches(items@[i as int], row);
        let ghost np = |i: usize| !row_matches(items@[i as int], row);
        let mut kept: Vec<usize> = Vec::new();
        let ghost admitted0 = admitted@;
        let mut k: usize = 0;
        while k < rest.len()
            invariant
                k <= rest@.len(),
                forall|q: int| 0 <= q < rest@.len() ==> rest@[q] < items@.len(),
                admitted@ == admitted0 + rest@.take(k as int).filter(p),
                kept@ == rest@.take(k as int).filter(np),
                forall|q: int| 0 <= q < kept@.len() ==> kept@[q] < items@.len(),
                p == (|i: usize| row_matches(items@[i as int], row)),
                np == (|i: usize| !row_matches(items@[i as int], row)),
            decreases rest@.len() - k,
        {
            let idx = rest[k];
            let x = items[idx];
            let m = x.id == row.id && match row.team_id {
                Some(t) => x.team_id == t,
                None => true,
            };
            proof {
                assert(rest@.take(k + 1) == rest@.take(k as int).push(idx));
                lemma_filter_push_dispatch(rest@.take(k as int), idx, p);
                lemma_filter_push_dispatch(rest@.take(k as int), idx, np);
                assert(m == p(idx));
            }
            if m {
                admitted.push(idx);
                assert(admitted@ == admitted0 + rest@.take(k + 1).filter(p));
            } else {
                kept.push(idx);
            }
            k = k + 1;
        }
        proof {
            assert(rest@.take(rest@.len() as int) == rest@);
            assert(rows@.take(j + 1).drop_last() == rows@.take(j as int));
            assert(rows@.take(j + 1).last() == row);
        }
        rest = kept;
        j = j + 1;
    }
    assert(rows@.take(rows@.len() as int) == rows@);
    (admitted, rest)
}

} // verus!
