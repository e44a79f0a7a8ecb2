# burton_update_dev

A local update server for a branded build of the Zed editor: it answers the
editor's auto-update queries with installers found on disk, serves those
installers, and reverse-proxies the extension marketplace.

- `src/` is the library, verified with Verus: the asset table, the release
  messages and download links, the public origin, safe file names, the
  artifact search and the newest-file walk (as state machines driven by the
  caller's file-system answers), the manifest version reader, the proxy's
  header rules, the marketplace address check and the upstream request URL,
  and the choice of the repository root.
- `app/` is the program around it: command-line options, the axum server and
  its handlers, the reqwest client, and every file-system and environment
  access.
- `tests/` runs the library on concrete inputs.
