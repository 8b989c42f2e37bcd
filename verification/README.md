# waystone

Verified core of the WaystoneOS publishing tools: project manifests, host and
identity records, recording and feed metadata, Atom feed generation,
publication dry runs and publication history.

- `src/` is the library, written in Verus. Each operation takes what it reads
  from disk as plain values (loaded records, file-system facts, directory
  listings) and returns the result, or the text and paths to write, with a
  contract that states it exactly.
- `tests/` exercises the library on concrete values.
- `app/` is the program around it: the `way`, `project`, `host`, `identity`,
  `record`, `listen` and `publish` commands and the D-Bus services. It reads
  and writes files, parses TOML with serde, runs `ffmpeg`, and prints results.
