# api

An HTTP API protected by an OpenID Connect identity provider (Keycloak-style
realms), split in two:

- `src/` is the verified library (Verus): the authentication middleware's
  decisions (which token a request presents in its `Cookie` and
  `Authorization` headers, which cached key checks it, the
  token policy it is checked against, that admitted claims are those that
  check finds, and that every refusal is `401`), the JWKS key cache, the
  OAuth2 authorization-code flow (authorization URL, code-grant form, session
  cookie), the identity provider's endpoint URLs, the settings' defaults, and
  the resource and user answers. Calls into `jsonwebtoken`,
  `serde_urlencoded`, `axum_extra` (cookies and the `Authorization` header) and `axum::http` stand behind the
  trusted items of `src/external.rs`.
- `app/` is the axum service around it: settings loading, logging, HTTP
  handlers and routers, the OpenAPI document, and the periodic key-set
  download. It serves no `/users` routes, runs no database migrator and
  serves no Swagger UI (see `app/routes.rs`).

The contracts do not enforce token expiry. Whether a token has expired is
decided by `jsonwebtoken`, which compares its `exp` claim with the system
clock; no contract states that an expired token is refused, and a body that
skipped the expiry check would meet them.

