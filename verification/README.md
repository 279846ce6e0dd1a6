# difftastic_api

The service layer of a structural diff tool, verified with Verus.

- `src/service.rs` — `DiffService`: a cache of per-language parser
  configurations (at most one per language) and the
  orchestration of one comparison: language choice, the identical-input
  shortcut, check-only comparisons, the fallbacks to a line-oriented
  comparison (input too large, too many parse errors, graph search too
  large) and the assembly of the result. The parsing, tree matching and
  hunk layout are driven through the `DiffEngine` trait; the contracts name
  each of its answers with `call_ensures` and say, branch by branch, how the
  result is made of them. For a cached language `get_config` gives back the
  cached configuration and leaves the cache as it is; otherwise it caches the
  configuration the engine built (`fetched_config`).
- `src/api.rs` — the request and response types and the handling of one
  request (`DiffService::respond`, `GrpcDiffService`).
- `src/report.rs` — the comparison of two files (`diff_file`: binary or
  prepared text, with a note on permissions), of the two sides of a file with
  conflict markers (`diff_conflicts_file`), and what the command line
  reports: notes for unchanged, changed and binary files, exit codes, notes on
  permissions and conflicts, and the ordering of directory results by path.
- `src/model.rs`, `src/text.rs`, `src/order.rs`, `src/size.rs` — the result
  and option types, string helpers, byte order, human-readable sizes.
- `src/laws.rs` — properties that hold across operations, among them that a
  comparison does not depend on what the cache held before.
- `app/` — the JSON wire types, the HTTP server and command-line output.
