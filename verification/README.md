# wasmvault

A capability sandbox for untrusted WebAssembly plugins, with its policy logic verified in Verus.

- `src/` is the verified library:
  - `manifest` — the capability manifest, its model, validation and defaults;
  - `profiles` — security profiles and what applying one does to a manifest;
  - `scanner` — import classification, permission mismatches and the risk score;
  - `crypto` — SHA-256 fingerprints and Ed25519 publisher signatures;
  - `sandbox`, `monitor` — the run-time decisions of the sandbox and the report of a run;
  - `text` — character-level string helpers used by the contracts.
- `app/` is the command-line program: argument parsing, TOML reading and writing, the
  Wasmtime runtime and terminal output. It calls the library for every decision.
- `tests/` exercises the library on concrete values.
