# analytics_resource

The archive library of an analytics workbench: files and analysis tables are
archived into a read-only, versioned `resources/` directory, indexed in a
registry, listed in a side panel, and edited through a handful of dialogs.

`src/` is the library, written in Verus and verified: every public function
states what it returns in its contract, and the laws of the library are proof
functions (`law_*`).

- `model`, `models`: kinds, statuses, retention settings and the registry records.
- `payload`: where payloads live; `resolve` keeps every path inside the
  managed directory (`law_resolved_paths_stay_inside`).
- `analysis`, `preview`, `indexer`: fingerprints of analysis tables, text
  previews, and the scan that compares the registry with the payloads.
- `service`, `labels`: the guards and refusals of archiving, re-archiving,
  checkout, restore, trash and undo, and the tags put on a fresh archive.
- `flows`: the multi-step flows as state machines — a first archive and its
  undo, the content update (re-archive, restore a version), a batch move to the
  trash, a restore from the trash, a purge. Each step takes what the host's last action brought back and
  names the next action; the laws say that old content is copied before it is
  overwritten and that a row and its payload never end up out of step.
- `resource`, `dictionary`: the registry's rules — columns and query texts,
  paging, `LIKE` escaping, the sort whitelist, and the naming rules of folders
  and tags.
- `filter`, `sorting`, `present`, `resource_view`, `detail_view`, `panel`,
  `dnd`: what the panel shows — rows, filters, sorting, status line, detail,
  drag and drop — and the panel's state.
- `dialogs/*`: the state, layout and actions of each dialog.
- `text`, `seqs`: string and sequence helpers.

Outside crates are reached through a few trusted wrappers: `sha2` and `hex`
for content fingerprints, `chrono` for reading and formatting instants.

`app/` is the ordinary Rust around the library: file system work on payloads,
the registry's statements on SQLite (`rusqlite`), the tag linker driven against
the store, the archive flows (`service`, driving the archive, undo and
content-update machines)
and index repair (`repair`), JSON documents, and conversions of instants.
