# provider_setup

The onboarding step of a terminal coding assistant that configures a custom
model provider: the user enters an API URL and an API key, the provider's
model list is fetched, the user picks a model, and the configuration is
written to `config.toml` and `auth.json`.

- `src/` is the verified library (Verus).
  - `text.rs`: UTF-8 strings as character sequences with byte offsets; the
    std string operations the editor uses, with their contracts.
  - `models.rs`: the model list entries and the finished configuration.
  - `input.rs`: key input, the editable text fields (byte-offset cursor, as
    `String` indexes), and the model list cursor.
  - `setup.rs`: the flow as functions from state and event to the next state
    and the outside work to do; the widget that runs them.
  - `screen.rs`: what each screen shows (field text, masked key, model list,
    summary).
  - `config.rs`: the models endpoint, the authorization header, and the
    content of the two configuration files.
  - `laws.rs`: properties that span steps (round trips, invariants).
- `app/` is the terminal front end: key event conversion (crossterm), HTTP
  fetch (reqwest, tokio), JSON reading (serde), file writing (tracing for
  errors), and drawing (ratatui).
- `tests/` runs the library on concrete scenarios.
