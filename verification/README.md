# oauth_server

The decision logic of a small OAuth 2.0 authorization server, verified with
Verus, and the web server around it.

- `src/` is the verified library:
  - `text`: words of a text (split at Unicode white space), replacing a
    pattern, cutting at a separator, with their specifications;
  - `scope`: whether requested scopes are among a client's scopes;
  - `authorize`, `approve`, `token`: what the `/authorize`, `/approve` and
    `/token` endpoints decide, given what the database holds;
  - `ids`: fresh random UUIDs (the one call into the `uuid` crate);
  - `model`: the records and requests the decisions work on;
  - `migration`: the database schema the migrations create, as data.
- `app/` is the actix-web server: it reads requests, queries and updates the
  database through sea-orm, renders templates with tera, and asks the library
  what to answer.
- `tests/` runs the library on concrete inputs.
