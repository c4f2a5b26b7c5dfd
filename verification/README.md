# patidar_auth

The user service's rules, each stated in its contract and proved:

- `src/models.rs`: the stored user and the Argon2 password check that admits a login.
- `src/auth/jwt.rs`: session-token claims (one-hour lifetime), their JSON text
  and its parser, HS256 signing and checking with expiry, the session cookie,
  and which token a request presents.
- `src/auth/auth_handlers.rs`, `src/auth.rs`: the replies to login and logout.
- `src/helpers.rs`: paging defaults and the page reply.
- `src/conf.rs`: database and server settings, and the connection URL.
- `src/reply.rs`, `src/text.rs`: reply values, decimal and UUID text and their parsers.

`app/` is the actix-web server around the library: configuration from the
environment, database access through sea-orm, migrations, the request
extractor, and the rendering of replies.
