# zlm_node

A ZLMediaKit node agent. It reports the node (its `mediaServerId`, public IP,
play bases and ZLMediaKit version) to a manager, keeps ZLMediaKit's
`rtc.externIP` and `hook.on_record_mp4` settings current, uploads finished
recordings through presigned URLs, and runs a TLS tunnel for ZLMediaKit's
hooks.

## Layout

- `src/` is the verified library (Verus). Each module states its behaviour in
  `requires`/`ensures` contracts over spec functions, and the properties that
  span several calls are public `law_*` proof functions.
  - `config`: the configuration, its defaults and start-up checks.
  - `text`, `json`, `ip`, `placeholder`: strings, JSON lookups and updates,
    IPv4 recognition and extraction, `{ip}` / `{interface:NAME}` expansion.
  - `token`: node-token hashing (plain or salted BLAKE3) and generation.
  - `zlm`, `report`: ZLMediaKit API URLs, version and `mediaServerId`
    handling, the hook URL and retry schedule, the status report.
  - `public_ip`, `agent`, `record`, `tunnel`: the decisions of the public-IP
    lookup, the reporting loop, the recording workflow and the tunnel, each a
    state machine that says what to do next; the caller performs the I/O and
    hands back what happened.
- `app/` is the program around it: environment, HTTP (reqwest, axum),
  sockets and TLS (tokio, rustls), files and timers.
- `tests/` runs the library on concrete values.
