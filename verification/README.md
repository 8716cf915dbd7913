# plex_rs

A client for the Plex Media Server HTTP API and the plex.tv account
services, written in Verus.

## Layout

- `src/` — the verified library. Everything a client decides or computes
  lives here with a contract proved by Verus: identity headers and client
  configuration, the retry policy, status-to-error mapping, pagination,
  library filters and smart-filter URIs, metadata decoding, transcoder,
  play-queue and player-command URLs, server settings, history walks,
  plex.tv resources and connection preference, the watchlist and webhook
  lists, sign-in reply handling, GDM reply parsing and the routing of
  server notifications. Public proof functions named `law_*` state
  properties that span several functions (round trips, what a write
  leaves for a later read).
- `app/` — the networked client around the library: `reqwest` and
  websocket transports, JSON and XML decoding with `serde`, and the async
  methods of servers, libraries, players and plex.tv. Its conversions move
  decoded fields into the client's types (some of which hold
  floating-point values); the checks and choices along the way — which
  rating keys an item must carry, which error a status maps to, when to
  retry, what a sign-in reply means — are calls into `src/`.
- `tests/` — tests of the library on concrete values.

The outside crates the library calls (`url`, `chrono`, `http`) are reached
through a small set of trusted wrappers, each documented with what its
contract claims of the called function.
