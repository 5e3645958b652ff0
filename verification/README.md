# this_env

Environment recognition and trust decisions for incoming requests, verified with Verus.

`src/` is the library. Every function in it carries a contract; Verus proves them all but
those of the wrappers in `outside.rs`, which call other crates and whose contracts are
trusted:

- `domain_utils`: labels, root domain, parent and subdomain of a host name;
- `str_map`: the text-keyed map used for headers, metadata and routes;
- `env_request`: HTTP, WebSocket and command-line requests, their summaries, and how a
  raw request is classified;
- `structs`: endorsements, kinds of environment, trust levels and their stored texts,
  statuses and request records;
- `env`: environments, endorsement status, blocked domains and the resolution of a request;
- `middleware`: the middleware's configuration, its answer to each request, and its
  internal routes;
- `logs`: the statement that fetches stored request records;
- `outside`: the calls into `serde_json` and `serde_urlencoded`, with the contracts the
  library relies on (trusted, not proved);
- `text`: character-level text operations.

`app/` is ordinary Rust around the library: the SQLite store (`rusqlite`), the clock
(`chrono`) and random identifiers (`uuid`), the Actix Web `Transform` and `Service` and the
responses they build, and serialisable copies of the library's types.
