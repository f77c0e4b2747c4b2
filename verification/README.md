# komorei

Verified core of the Komorei source SDK: the data model that sources exchange with the
app, the base64 and digest helpers that the runtime offers to sources, and the rules
behind the `repo` subcommands of the command-line tool.

- `src/structs/` – anime, episodes, streams, listings, deep links and the source traits;
  `Anime::copy_from` merges a full fetch into a lite one.
- `src/map.rs` – the string map used for headers, cookies and extras.
- `src/imports/` – tolerant base64 decoding, standard base64 encoding, MD5/SHA-1/SHA-256
  and HMAC digests as lowercase hex, and the error type.
- `src/repo.rs` – choosing the source crates of a repository and scaffolding a new one.
- `app/` – file-system and serialization glue around the library.
