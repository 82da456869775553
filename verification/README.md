# pandora

The core of a Discord bot, written in Verus: the data it exchanges with
Discord, the rules it follows and the answers it gives, each function with a
contract that Verus proves.

## Layout

- `src/` — the verified library.
  - `models/` — the Discord objects (users, guilds, channels, messages,
    components, embeds, interactions, commands), their JSON forms and the
    update rules of their cached copies.
  - `json.rs`, `json_text.rs`, `text.rs`, `text_map.rs`, `assoc.rs` — JSON
    values and their text, decimal and
    hexadecimal text, ordered maps of texts and association lists.
  - `cache.rs`, `cache_manager.rs` — the bounded message cache and the cache
    of guilds, channels and users.
  - `gateway.rs`, `events.rs`, `http.rs` — the decisions of the gateway
    shards, the dispatch of events, and the requests to the HTTP API.
  - `interactions.rs`, `profile.rs`, `fun.rs`, `kady.rs`, `help.rs`,
    `feedback.rs`, `replies.rs`, `admin.rs` — the routing of interactions and
    what each command answers, its texts named by their translation keys.
  - `archive.rs`, `archive_laws.rs`, `archive_doc.rs` — the encrypted
    archive format, its laws, and the archive with its JSON body.
  - `api.rs`, `config.rs`, `broadcaster.rs`, `supervisor.rs`, `time.rs` — the
    administration API, the configuration, error reports, the launcher's
    crash rule and times.
- `tests/` — tests of the library on concrete values.
- `app/` — the launcher and the file and serde glue that cannot be verified.
