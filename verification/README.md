# amos_tauri

The decision-making core of the AmOS System UI host, written in Verus: every
public function in `src/` carries a `requires`/`ensures` contract, and Verus
proves all of `src/` against those contracts.

- `src/` — the library. One module per feature (clipboard, app store, voice,
  alarms, AirPlay, device care, display power, dock badge, desktop entries, …).
  Each module models its data with spec functions and views, and states the
  properties that span several calls as public `lemma_*` proof functions.
  Calls into outside crates (`base64`) and into std where vstd gives no
  specification stand behind small `#[verifier::external_body]` wrappers whose
  doc comments say what they claim.
- `tests/` — ordinary Rust tests that run the compiled library.
- `app/` — the unverified shell: environment variables, file I/O, process-wide
  state, and `serde` copies of the library's wire types.
