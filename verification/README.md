# ferrispot

A wrapper for the Spotify Web API, written in Verus.

- `src/` is the verified library: Spotify ID parsing (bare IDs, URIs and URLs) with its round-trip laws, the object
  model and its conversions between partial, full and local objects, OAuth scopes, the query parameters and forms of
  every authorization flow, and the rules by which a request is built and its response handled (which statuses are
  errors, when an access token is refreshed, when a rate limit is waited out). Base64, SHA-256, URL building and
  random strings are called through `base64`, `sha2`, `reqwest`'s URL type and `rand`, behind trusted wrappers whose
  contracts name their results.
- `app/` sends the requests the library describes with `reqwest`, reads Spotify's JSON with `serde`, and holds the
  clients whose access tokens change while they are shared.
- `tests/` runs the library on concrete values.
