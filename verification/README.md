# rust_microservices

An OAuth2/PKCE authentication service, a user profile service with a Redis
cache and Kafka events, an API-collection generator and a coverage runner.
The decisions these programs make are a library whose behaviour is stated in
`requires`/`ensures` contracts and proved with Verus; the HTTP servers, the
database, cache and broker calls, file and network access stay in `app/`.

## Layout

- `src/` — the verified library.
  - `oauth.rs`, `auth.rs`, `token.rs`, `crypto.rs`, `scopes.rs`: client
    registration, the authorization-code grant with PKCE, client credentials,
    refresh token rotation, password and secret checks, access tokens.
  - `grant.rs`: the authorization-code grant as a step function from stage and
    storage answer to next stage and action.
  - `users.rs`, `events.rs`, `health.rs`, `jwt_auth.rs`, `errors.rs`,
    `config.rs`, `models.rs`: cache plans of the user service, user events,
    health reports, bearer authentication, error mapping, settings, records.
  - `json.rs`, `assoc.rs`, `openapi.rs`, `postman.rs`, `collection.rs`,
    `textops.rs`: the operations of API descriptions and the collection built
    from them.
  - `coverage.rs`: which services a coverage run covers.
  - `text.rs`: decimal, hexadecimal and word-level text operations.
  - `laws.rs`: properties that span several operations.
- `tests/` — tests of the library.
- `app/` — the binary: `auth-service`, `user-service`, `postman-gen`,
  `coverage`.
