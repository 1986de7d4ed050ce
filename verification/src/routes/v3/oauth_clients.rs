//! OAuth clients (v3): request bodies, what an edit of a client changes, and
//! which redirect addresses an edit adds and removes.
use vstd::prelude::*;
use crate::models::pats::Scopes;
use crate::routes::ApiError;
use crate::util::text::{str_eq, string_views};
use rand::{Rng, SeedableRng};

verus! {

/// A new OAuth application.
pub struct NewOAuthApp {
    pub name: String,
    pub icon_url: Option<String>,
    pub max_scopes: Scopes,
    pub redirect_uris: Vec<String>,
    pub url: Option<String>,
    pub description: Option<String>,
}

/// An edit of an OAuth application. A field that is absent is left as it is;
/// for a field that can be empty, `Some(None)` empties it.
pub struct OAuthClientEdit {
    pub name: Option<String>,
    pub icon_url: Option<Option<String>>,
    pub max_scopes: Option<Scopes>,
    pub redirect_uris: Option<Vec<String>>,
    pub url: Option<Option<String>>,
    pub description: Option<Option<String>>,
}

/// The fields of a client that an edit can change.
pub struct EditableClient {
    pub name: String,
    pub icon_url: Option<String>,
    pub max_scopes: Scopes,
    pub url: Option<String>,
    pub description: Option<String>,
}

/// An edit must change the name, the icon or the scopes.
pub fn check_client_edit(edit: &OAuthClientEdit) -> (r: Result<(), ApiError>)
    ensures
        r is Ok <==> (edit.icon_url is Some || edit.name is Some || edit.max_scopes is Some),
        r is Err ==> (r matches Err(ApiError::InvalidInput(m)) && m@ == "No changes provided"@),
{
    if edit.icon_url.is_none() && edit.name.is_none() && edit.max_scopes.is_none() {
        return Err(ApiError::InvalidInput("No changes provided".to_owned()));
    }
    Ok(())
}

/// A client with an edit applied: each field given replaces the old one.
pub fn apply_client_edit(client: EditableClient, edit: OAuthClientEdit) -> (r: EditableClient)
    ensures
        r.name == match edit.name { Some(n) => n, None => client.name },
        r.icon_url == match edit.icon_url { Some(i) => i, None => client.icon_url },
        r.max_scopes == match edit.max_scopes { Some(s) => s, None => client.max_scopes },
        r.url == match edit.url { Some(u) => u, None => client.url },
        r.description == match edit.description { Some(d) => d, None => client.description },
{
    let mut c = client;
    if let Some(name) = edit.name {
        c.name = name;
    }
    if let Some(icon_url) = edit.icon_url {
        c.icon_url = icon_url;
    }
    if let Some(max_scopes) = edit.max_scopes {
        c.max_scopes = max_scopes;
    }
    if let Some(url) = edit.url {
        c.url = url;
    }
    if let Some(description) = edit.description {
        c.description = description;
    }
    c
}

fn contains_str(items: &Vec<String>, s: &str) -> (r: bool)
    ensures
        r == string_views(items@).contains(s@),
{
    let mut i: usize = 0;
    while i < items.len()
        invariant
            i <= items@.len(),
            forall|k: int| 0 <= k < i ==> items@[k]@ != s@,
        decreases items@.len() - i,
    {
        if str_eq(items[i].as_str(), s) {
            assert(string_views(items@)[i as int] == s@);
            return true;
        }
        i = i + 1;
    }
    assert(!string_views(items@).contains(s@)) by {
        if string_views(items@).contains(s@) {
            let k = choose|k: int| 0 <= k < string_views(items@).len() && string_views(items@)[k] == s@;
            assert(items@[k]@ == s@);
        }
    }
    false
}

/// The redirect addresses an edit adds: those asked for that the client does
/// not have yet, each once, in the order first asked for.
pub fn redirects_to_add(updated: &Vec<String>, current: &Vec<String>) -> (r: Vec<String>)
    ensures
        forall|u: Seq<char>| #[trigger] string_views(r@).contains(u)
            <==> (string_views(updated@).contains(u) && !string_views(current@).contains(u)),
        forall|i: int, j: int| 0 <= i < j < r@.len() ==> (#[trigger] r@[i])@ != (#[trigger] r@[j])@,
{
    let mut r: Vec<String> = Vec::new();
    let mut i: usize = 0;
    while i < updated.len()
        invariant
            i <= updated@.len(),
            forall|u: Seq<char>| #[trigger] string_views(r@).contains(u)
                <==> (string_views(updated@.take(i as int)).contains(u) && !string_views(current@).contains(u)),
            forall|a: int, b: int| 0 <= a < b < r@.len() ==> (#[trigger] r@[a])@ != (#[trigger] r@[b])@,
        decreases updated@.len() - i,
    {
        let ghost before = r@;
        let ghost seen = string_views(updated@.take(i as int));
        let ghost next = string_views(updated@.take(i + 1));
        assert(next == seen.push(updated@[i as int]@));
        let u = updated[i].as_str();
        let in_current = contains_str(current, u);
        let in_result = contains_str(&r, u);
        if !in_current && !in_result {
            r.push(updated[i].clone());
            assert(string_views(r@) == string_views(before).push(u@));
            assert forall|a: int, b: int| 0 <= a < b < r@.len() implies (#[trigger] r@[a])@ != (#[trigger] r@[b])@ by {
                if b == r@.len() - 1 {
                    assert(string_views(before)[a] == r@[a]@);
                }
            }
        }
        assert forall|v: Seq<char>| #[trigger] string_views(r@).contains(v)
            <==> (next.contains(v) && !string_views(current@).contains(v)) by {
            if next.contains(v) {
                let k = choose|k: int| 0 <= k < next.len() && next[k] == v;
                if k < i {
                    assert(seen[k] == v);
                }
            }
            if seen.contains(v) {
                let k = choose|k: int| 0 <= k < seen.len() && seen[k] == v;
                assert(next[k] == v);
            }
            assert(next[i as int] == u@);
            if !in_current && !in_result {
                let bv = string_views(before);
                if string_views(r@).contains(v) {
                    let k = choose|k: int| 0 <= k < string_views(r@).len() && string_views(r@)[k] == v;
                    if k < bv.len() {
                        assert(bv[k] == v);
                    }
                }
                if bv.contains(v) {
                    let k = choose|k: int| 0 <= k < bv.len() && bv[k] == v;
                    assert(string_views(r@)[k] == v);
                }
                if v == u@ {
                    assert(string_views(r@)[bv.len() as int] == v);
                }
            }
        }
        i = i + 1;
    }
    assert(updated@.take(updated@.len() as int) == updated@);
    r
}

/// The client's redirect addresses that an edit removes: those not asked
/// for any more, as positions in the client's list, in order.
pub open spec fn spec_redirects_to_remove(existing: Seq<String>, updated: Seq<Seq<char>>) -> Seq<usize>
    decreases existing.len(),
{
    if existing.len() == 0 {
        Seq::empty()
    } else {
        let before = spec_redirects_to_remove(existing.drop_last(), updated);
        if updated.contains(existing.last()@) {
            before
        } else {
            before.push((existing.len() - 1) as usize)
        }
    }
}

/// The client's redirect addresses that an edit removes.
pub fn redirects_to_remove(existing: &Vec<String>, updated: &Vec<String>) -> (r: Vec<usize>)
    ensures
        r@ == spec_redirects_to_remove(existing@, string_views(updated@)),
{
    let mut r: Vec<usize> = Vec::new();
    let mut i: usize = 0;
    while i < existing.len()
        invariant
            i <= existing@.len(),
            r@ == spec_redirects_to_remove(existing@.take(i as int), string_views(updated@)),
        decreases existing@.len() - i,
    {
        assert(existing@.take(i + 1).drop_last() == existing@.take(i as int));
        if !contains_str(updated, existing[i].as_str()) {
            r.push(i);
        }
        i = i + 1;
    }
    assert(existing@.take(existing@.len() as int) == existing@);
    r
}

/// The file extension of an uploaded icon.
pub struct FileExt {
    pub ext: String,
}


/// Whether a character is an ASCII letter or digit.
pub open spec fn is_ascii_alphanumeric(c: char) -> bool {
    ('a' <= c && c <= 'z') || ('A' <= c && c <= 'Z') || ('0' <= c && c <= '9')
}

/// Random text of `len` ASCII letters and digits.
/// Trusted: draws `len` samples of `rand`'s `Alphanumeric` distribution from
/// a `rand_chacha::ChaCha20Rng` seeded from the operating system
/// (`from_entropy`), each sample a byte that `rand` documents as one of a-z,
/// A-Z and 0-9, taken as a character. Which characters come is left open.
/// Seeding panics where the operating system gives no entropy; no input
/// can rule that out.
#[verifier::external_body]
pub(crate) fn random_alphanumeric(len: usize) -> (r: String)
    ensures
        r@.len() == len,
        forall|i: int| 0 <= i < r@.len() ==> is_ascii_alphanumeric(#[trigger] r@[i]),
{
    rand_chacha::ChaCha20Rng::from_entropy()
        .sample_iter(&rand::distributions::Alphanumeric)
        .take(len)
        .map(char::from)
        .collect()
}

/// The length of a client secret and of a download token.
pub const SECRET_LENGTH: usize = 32;

/// A new client secret: 32 random ASCII letters and digits.
pub fn generate_oauth_client_secret() -> (r: String)
    ensures
        r@.len() == SECRET_LENGTH,
        forall|i: int| 0 <= i < r@.len() ==> is_ascii_alphanumeric(#[trigger] r@[i]),
{
    random_alphanumeric(SECRET_LENGTH)
}

} // verus!
