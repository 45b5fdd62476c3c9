# saf_app

The decision logic of the SAF runtime for SkyBlock auction flipping, as a
library whose functions carry `requires`/`ensures` contracts proved with
Verus, and a thin command line around it.

- `src/` is the verified library. Text and JSON5 editing (`text`, `scan`,
  `json5_edit`, `config_patch`, `config_session`), the blacklist rules and
  their configuration document (`blacklist_rules`, `blacklist_update`,
  `blacklist_store`,
  `config_document`, `json_value`), the dashboard's configuration routes and
  helpers (`config_routes`, `dashboard_rules`), the live preflight
  (`preflight`, `preflight_checks`, `env_vars`), and the runtime's state
  machines and window decisions (`live_buy`, `reconcile_flow`,
  `reconcile_window`, `draft_window`, `bids_flow`, `deferred_queue`,
  `cofl_stream`, `auto_cookie`, `cofl_auth`,
  `cofl_connection`, `cofl_watchdog`, `auth_links`, `gui_window`,
  `gui_diagnostics`, `bank`, `account_rotation`, `queue_store`,
  `recorders`, `chat_categories`, `discord_gateway`, `runtime_rules`).
  Calls into `serde_json`, `uuid`, `url`, `regex` and `char::to_uppercase` go
  through small trusted wrappers whose contracts are documented where
  they are declared.
- `tests/` exercises the library on concrete values.
- `app/` is the `saf` binary: argument parsing, reading the configuration
  and the machine, printing reports.

What the binary can run: `live-preflight`, `check-config`, and the start of
`run-live` (session generation and the safety preflight). The runtime
itself (game clients, the Cofl socket, the Discord gateway, the command
inbox and the state commands) lives in the SAF runtime crates, which this
build does not include; those commands stop with an error that says so.
For the same reason the account environment overrides
(`SAF_ONLY_IGNS`, `SAF_DEFAULT_IGN`, `SAF_START_DEFAULT_ONLY`), which the
runtime's configuration crate applies, are not applied when the binary
reads `igns` and `defaultIgn` from the configuration.
