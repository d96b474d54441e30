# dld

Plays the daily tasks of the browser game 大乐斗 for a set of registered accounts.

The crate is written in Verus. `src/` is the verified library; `app/` is the program
around it.

## Layout

- `src/text.rs`, `src/text_spec.rs` — character-level helpers and the parsing facts they
  rest on (splitting, number parsing, prefixes).
- `src/common/accounts.rs` — cookies: validation, normalisation, the QQ number, and the
  in-memory account store.
- `src/common/client.rs` — responses: GBK decoding, repair of dirty JSON, what a
  response's `result` code means, the client's cookie and maintenance states.
- `src/common/config.rs` — the global and per-account configurations, their defaults and
  their validation.
- `src/common/shape.rs` — the field paths of a configuration file and the difference
  between a file and the defaults.
- `src/common/log.rs`, `src/common/paths.rs` — log lines, log retention, data locations.
- `src/dw/tasks.rs` — the list of tasks and the order of a full run.
- `src/dw/tasks/*.rs` — the decisions of each task: what to claim, buy, fight or sign up
  for, given the pages the server returned.
- `app/` — command line, HTTP, files, the per-task loops that fetch pages and send the
  requests the library chooses.

## Checking

Each public function of `src/` states its result in its `ensures`; where a result comes
from an outside crate (GBK decoding, JSON parsing, date parsing) the contract names it.
The public proof functions named `law_*` state properties that span several calls.
