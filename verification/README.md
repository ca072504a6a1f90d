# node-librespot

Native Node.js bindings for librespot (Spotify Connect): they stream tracks as PCM, download audio
files, mint and reuse credentials, and host Connect devices. The rules behind the bindings are a
library that is verified with Verus; the addon around it talks to Spotify and to JavaScript.

## Layout

- `src/` is the verified library. It works on plain values: it takes in what was asked or what
  happened, and gives back what is to be done, what is logged and what callbacks are told.
  - `session`, `login`, `hosting`: sessions, logins and connect hosts, from a caller's arguments to
    what is connected, with every refusal.
  - `tracks`, `download`: requests to stream or download a track, and the download loop.
  - `stream`, `health`, `sink`, `playback`, `connect`: the tasks of a stream and of a connect host.
  - `stream_laws`: what holds of a stream whatever the order in which its tasks run.
  - `events`, `logging`, `handles`, `formats`, `credentials`, `spotify`, `session_ids`, `timing`,
    `error`, `text`: the values that the others work with.
- `app/` is the addon: N-API bindings, librespot's sessions, players and sinks, the runtime and the
  clock.
- `tests/` runs the library, with the crates that it calls.

## What is trusted

Proofs rest on the contracts of a few wrappers: `str::trim` and `str::to_lowercase`; the reading of
Spotify URIs and identifiers by librespot; the credentials that librespot makes of an access token;
and serde_json's reading and writing of credentials. The doc comment of each says what is claimed.

## Environment

`LOX_LIBRESPOT_CLIENT_ID` is the client identifier of sessions and connect hosts for which a caller
gives none. `login_with_access_token` does not use it.
