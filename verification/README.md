# ds_thread_player

A Discord bot that plays YouTube links in voice channels and logs the
messages of each guild to PostgreSQL. The logic is a Verus-verified library;
the program around it is ordinary Rust.

- `src/` — the verified library:
  - `text` — splitting a message at ASCII whitespace, with its laws
    (well-formed words, nothing but whitespace lost, split/join round trip);
  - `command` — reading the first word as a command;
  - `dispatch` — the steps that answer a message;
  - `decimal`, `db` — the SQL statements of each guild's schema, the
    connection string, id conversion, stored voice states;
  - `voice` — finding the author's voice channel, the links to play, the
    playback plan;
  - `link` — the YouTube link check (through the `url` crate);
  - `config` — reading the database settings from YAML (through
    `yaml-rust2`);
  - `error` — the setup errors.
- `app/` — the bot itself: gateway, message queue, database and voice I/O.
- `tests/` — tests of the library.
