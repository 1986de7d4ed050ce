# labrinth

The decisions of a mod-hosting API server (projects, versions, organizations,
collections, reports, Minecraft profiles, OAuth clients, search indexing),
written as a Verus library: each function states in its contract what it
returns or refuses, and Verus proves it.

- `src/models` — ids (base62), kinds, roles and the other plain values the
  routes read.
- `src/routes` — per API version (`v2`, `v3`): request bodies and the
  decisions of each route (who may do what, which error comes, what an edit
  changes), and the conversions between the v2 and v3 shapes.
- `src/search` — search parameters and what the search index holds of a
  project, how projects are batched to it, and its settings.
- `src/util` — authorization filtering, base text and byte helpers, sorting,
  multipart bodies, icons and stored files, rate-limit bypass, webhooks.
- `tests` — tests on concrete values of every public function.
- `app` — the JSON shapes of some bodies (serde) and the answers that need
  formatting or an HTTP status; the database, HTTP and search-engine calls are
  not part of this crate.

Outside crates are called through small trusted wrappers whose contracts are
in their doc comments: `spdx` (licenses), `censor` (report texts), `pgp` and
`ssh-key` (signing keys), `serde_json` (JSON string arrays), `sha1` (stored
file names), `rand` and `rand_chacha` (boundaries, secrets and tokens).
