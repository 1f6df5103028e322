# reverb

REVERB is a modular terminal music player with a small server that clients
can connect to. This crate holds its logic as a Verus-verified library, and
the program around it.

## Layout

- `src/` — the verified library:
  - `packet`, `commands`, `server`, `connection`: the network protocol
    shared by client and server (packet layout, command bytes), the
    server's user table and answers, and the client's side of the link;
  - `song`, `playlist`, `queue`, `internal`, `player`, `config`,
    `client_command`: songs, playlists, the play queue, the client's state
    with its cache of at most ten playlists, the automatic skip to the next
    song, and the requests the client's parts send its main loop;
  - `command_spec`, `cli`, `line_command`, `number`: the tree of commands of
    the text interface and its command table, what each command reads from
    its arguments, the older line grammar, and reading numbers;
  - `layout`, `panel`, `text`: the lines of the terminal view and text
    helpers (splitting, joining, trimming, decoding);
  - `failure`: failures, fatal or warnings.
- `tests/` — tests of the library on concrete values.
- `app/` — the program: `reverb` runs the client, `reverb server` the
  server. It reads and writes the files (TOML), plays local files, draws the
  terminal view and runs the QUIC links, and hands everything else to the
  library.
