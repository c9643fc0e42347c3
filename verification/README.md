# st-server

The verified core of a low-latency server that streams a screen, its sound and its input.

- `src/` is the library. A function states in its contract what it returns or changes, and
  Verus proves it. Two kinds of functions are apart: the few wrappers around other packages, which
  are believed and not proved, and `generate_input_credential`, of which there is nothing to state,
  because its bytes are random. Reading, sending, clocks and devices are outside: a function takes
  what came of them and says what to do next.
- `tests/` runs the library on values.
- `app/` is the program around it: sockets, threads, virtual input devices and commands. The
  wire protocol, the capture backends and the encoders reach it through the traits of
  `app/host.rs`.

Where to start reading in `src/`:

| What | Modules |
| --- | --- |
| A client's session | `session`, `setup`, `control`, `messages` |
| The shared stream | `pipeline_start`, `pipeline`, `bitrate`, `transport` |
| Encoders | `encoder_select`, `encode_plan`, `encode_sw`, `encode_vaapi`, `encode_win`, `encode_vt` |
| Input | `input`, `input_backend`, `input_cursor`, `cursor`, `warp`, `devices`, `keys`, `key_names`, `keyboard`, `pointer` |
| Files | `file_transfer`, `file_manager`, `file_names`, `file_clipboard`, `digest` |
| Reaching a client | `tunnel`, `net`, `linux_uring` |
| The desktop | `game_mode`, `screen_wake`, `macos_display` |
| The start | `config`, `startup` |
| Small parts | `auth`, `json`, `media`, `text` |

What the library believes of other packages without proof stands in four places: the hash of
`sha2` in `digest`, the parser of `serde_json` in `json`, the random bytes of `rand` in `input`,
and two functions of the standard library in `text`.
