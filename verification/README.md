chronicle-feeder
================

A minimal voice bot for end-to-end tests: it joins a voice channel and plays a
pre-encoded OGG Opus file on demand. Test scripts drive it through a small HTTP
control API. Its logic is a library verified with Verus.

```
Idle  ──/join──▶  Joined  ──/play──▶  Playing
  ▲                  │                    │
  │                  │                    │
  └───/leave─────────┴────/stop (or EOF)──┘
```

| Method | Path | Body | Effect | Errors |
|---|---|---|---|---|
| GET | `/health` | | `{ name, user_id, in_voice, playing }` | |
| POST | `/join` | `{ "guild_id": u64, "channel_id": u64 }` | connect | 409 already joined, 500 not ready or failed, 4xx unreadable body |
| POST | `/play` | | start the audio file | 404 file missing, 400 not in voice, 409 already playing |
| POST | `/stop` | | stop the track (no-op without one) | |
| POST | `/leave` | | leave, stopping the track (no-op if not joined) | 500 not ready or failed |

Layout
------

* `src/`: the verified library. `state` is the state machine, `control` the
  decision behind each endpoint, `error` the errors and how they are rendered,
  `audio` the check on the audio file, `config` the settings, and `laws` what
  holds of them together.
* `tests/`: the library's tests.
* `app/`: the process around it: environment, files, gateway, HTTP server.

One function rests on trust: `config::parse_bind` reads an IP address with
`str::parse` of std.
