# rl_bc_uploader

Listens to Rocket League's Stats API over TCP, notices the end of each match,
waits for the replay the player saves, and uploads it to ballchasing.com.

The decisions of the program live in `src/` and are verified with Verus:

- `events` — the event types, which event an envelope's name announces, and
  how an envelope becomes an event once its data is decoded.
- `framing` — the byte buffer of the stream and the walk that decides how many
  leading bytes are done with (complete envelopes, trailing white space, one
  byte of garbage); no received byte is lost or reordered.
- `reaction` — the log line and level for each event, and the rule that only
  the end of a match starts the wait for a replay and its upload.
- `watcher` — which file of the replay folder is the new replay, and when the
  wait is over.
- `uploader` — what is sent to ballchasing.com and what its answer means.
- `config` — the settings read from the environment, and which log files are
  old enough to remove.
- `text` — character helpers: comparison, blank detection, decimal text.

`app/` is the program around the library: the TCP connection, JSON decoding
with serde, the file system, HTTP, self-update and logging.
