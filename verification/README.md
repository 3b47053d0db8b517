# ciphey

The core of the Ciphey terminal interface, written in Verus: every function
in `src/` carries a `requires`/`ensures` contract that Verus proves, except
the small `#[verifier::external_body]` wrappers around `std`, `rand`,
`base64` and `urlencoding` calls, whose contracts are trusted (each says in
its doc comment what it claims of the call).

## Layout

- `src/` — the verified library:
  - `text.rs`, `strings.rs`: UTF-8 and character-position arithmetic shared
    by the editors.
  - `text_input.rs`, `multiline_text_input.rs`: the single- and multi-line
    text inputs, each modelled by an abstract state (`TiState`, `MlState`)
    that every operation is specified against.
  - `state.rs`: results, branches, history entries and the per-screen state
    records; `app_state.rs`: the application state (`App`, `AppState`) and its
    transitions; `settings_screens.rs`: the settings panel and the editors
    opened from it as screens of the application.
  - `input.rs`, `editors.rs`, `dispatch.rs`: what each key does on each
    screen and overlay, and where a key goes.
  - `runner.rs`: the event loop's decisions once storage or a background
    job has answered.
  - `setup.rs`, `themes.rs`: the first-run wizard and its colour themes;
    `setup_download.rs`: what the wizard does with the reports of the model
    download.
  - `parse.rs`, `validation.rs`, `settings_fields.rs`, `colors.rs`,
    `search.rs`: parsing and validation of settings values, colours and
    web-search templates.
  - `human_checker_bridge.rs`: the channel over which the plaintext checker
    asks the user for confirmation.
- `tests/` — tests run against the compiled library.
- `app/` — the terminal side: key events, clipboard and browser, JSON
  history records, floating-point settings values and file checks.

The proof functions named `lemma_*` state the laws that hold across calls,
such as a backspace undoing an insertion or a step back undoing a step
forward.
