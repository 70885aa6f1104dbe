# wasm_tools

The decision logic of the `wasm(1)` WebAssembly developer tools, written in
Verus: every verified function in `src/` carries a `requires`/`ensures`
contract that Verus proves, and the properties that span several calls are
stated and proved as `lemma_*` proof functions. The few calls into outside
crates go through small trusted wrappers whose contracts state what those
crates document (and nothing where the result depends on the machine).

## Layout

- `src/` — the verified library.
  - Packages and references: `known_package`, `image_entry`, `oci`, `tags`,
    `store`, `migration`, `wit_interface`.
  - Installing and running: `install` (lockfile upserts, transitive queue),
    `component` (component validation, HTTP detection, run hints),
    `permissions`, `compose`, `detector` (finding `.wasm` files).
  - Registries and credentials: `config`, `credential_helper`, `network`
    (tag paging, authentication, meta-registry URLs), `cli_config`,
    `meta_registry`.
  - Progress display: `progress` (aggregating layer downloads),
    `progress_tree` (tree glyphs and bar prefixes).
  - Terminal interface: `tui_views` (tabs, selections), `tui_app` (key
    handling as a state machine), `tui_manager` (requests to the package
    manager), `tui_text` (what each view shows).
  - Text output and errors: `listing`, `search`, `command_errors`,
    `component_errors`, plus the string helpers in `text` and the verified
    sort in `sort`.
- `tests/` — ordinary Rust tests of the library on concrete values.
- `app/` — the `wasm` command: argument parsing, files, processes, OCI
  registries and progress bars, handing plain values to the library.

A few calls go to outside crates through `#[verifier::external_body]`
wrappers whose contracts state what those crates document:
`wasmparser` (payload parsing), `console` (colouring), `comfy-table`
(table rendering), `dirs` (the platform configuration directory) and
`std` string functions.
