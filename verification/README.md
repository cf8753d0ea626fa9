# codex_desktop_linux

The decision-making core of the Codex Desktop Linux updater and of its Chrome
extension native host, written in Verus and verified.

## Layout

- `src/` — the verified library.
  - `text`, `path`, `pattern` — string, path and byte-pattern primitives with exact
    specifications (`lines`, `split_whitespace`, `trim`, `Path::file_name`, ...).
  - `package`, `installed`, `version` — package formats, distribution detection, the
    versions package tools report, generated-version ordering.
  - `staging`, `gentoo`, `commands`, `install` — the checks a package passes before it
    is installed, the tool command lines, and the install procedure as a step machine
    (`Installer::step`) that the program drives with the results of its outside work.
  - `prebuilt` — release checksum files and download digests.
  - `pending`, `router` — request routing between Chrome and the browser client.
  - `handshake`, `frame`, `runtime`, `assets`, `rollout`, `socket` — the native host's
    WebSocket proxy handshake, message framing, runtime requests and answers,
    temporary assets, turn tracking and socket directory checks.
  - `launch` — how the app server is started behind the proxy: loopback-only
    addresses, its command line and environment, and the retries.
- `tests/` — tests of the library.
- `app/` — the programs around it: the native host (`main.rs`) and the updater's
  system work (`updater.rs`): sockets, processes, files, HTTP and JSON. The library
  reads paths as text, so the programs refuse a path that is not valid UTF-8 rather
  than hand it on altered.
