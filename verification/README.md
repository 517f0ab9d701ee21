# serenity (guild id operations)

A Verus-verified library for the operations a Discord bot performs on a
guild id.

- `src/guild_id.rs`: the REST requests of each operation, and the checks
  that refuse an operation before anything is sent (ban limits, the member
  list limit, a sticker without a file); the two steps of creating a role.
- `src/cached.rs`: cache lookups (guild, name, member with cache first),
  the member walk's start, and the event collectors of a guild.
- `src/members_iter.rs`: the state machine of a walk over all members of
  a guild, page by page, including failed fetches.
- `src/members_walk.rs`: the stream of members polled against a server,
  and its laws over whole walks.
- `src/index.rs`: indexing channel and role lists by id.
- `src/shard.rs`: the shard that serves a guild.
- `src/widget.rs`, `src/decimal.rs`: the widget image address and the
  decimal notation of ids.
- `src/cache.rs`, `src/model.rs`, `src/id.rs`, `src/json.rs`,
  `src/request.rs`, `src/collector.rs`, `src/from.rs`: the data the
  operations work on.
- `app/lib.rs`: sending the requests through an HTTP client, the member
  stream, and the serde form of the widget style.
