# cubex_launcher

The logic of a Minecraft launcher, verified with Verus.

- `src/text.rs`: character-level string functions (replacement, splitting on
  white space, joining, hexadecimal) with exact specifications.
- `src/paths.rs`: the launcher's directory layout; paths are joined with `/`.
- `src/rules.rs`: the library model of a version document and the three ways
  its platform rules are evaluated.
- `src/launch.rs`: the Java command line, native-library selection and the
  offline player identity.
- `src/manager.rs`: the installation plan (client, libraries, assets) and the
  per-file fetch protocol with its retries.
- `src/download.rs`: locations and URLs of the standalone downloader.
- `src/digest.rs`: MD5, SHA-1 and hexadecimal text through their crates.

`app/` is the program around the library: network and file I/O, JSON
reading, process spawning and the command line.
