# wif

The rules of WorkItemFlow, a personal work-item manager, as a Verus-verified
library, with the application around it.

- `src/` — the verified library:
  - `domain`: entities, enums, the egress policy and the store's error type;
  - `data`: how entities are laid out in the store's columns and read back
    (enum codes, ULID text, JSON tag lists, row conversions, update outcomes);
  - `ai`: prompt templates and rendering, the egress filter, the chat exchange
    as a state machine, and the planning of an analysis;
  - `docs`: CSV export, file-type detection, document metadata and the text of
    a spreadsheet;
  - `modules`: the lifecycle host of the application's modules.
- `app/` — ordinary Rust around the library: the SQLite store, reading and
  writing files, the HTTP client of the AI provider, `serde`/`thiserror`
  copies of library types, and the composition root.
- `tests/` — tests of the library, run against the real outside crates.
