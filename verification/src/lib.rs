use vstd::prelude::*;

pub mod account_rotation;
pub mod auth_links;
pub mod auto_cookie;
pub mod bank;
pub mod bids_flow;
pub mod blacklist_rules;
pub mod blacklist_store;
pub mod blacklist_update;
pub mod chat_categories;
pub mod cofl_auth;
pub mod cofl_connection;
pub mod cofl_privacy;
pub mod cofl_stream;
pub mod cofl_watchdog;
pub mod env_vars;
pub mod gui_diagnostics;
pub mod gui_window;
pub mod inbox;
pub mod json_value;
pub mod live_buy;
pub mod config_document;
pub mod config_patch;
pub mod config_routes;
pub mod config_session;
pub mod config_write;
pub mod dashboard_rules;
pub mod deferred_queue;
pub mod discord_gateway;
pub mod draft_window;
pub mod json5_edit;
pub mod preflight;
pub mod preflight_checks;
pub mod queue_store;
pub mod recorders;
pub mod reconcile_flow;
pub mod reconcile_window;
pub mod runtime_rules;
pub mod scan;
pub mod string_map;
pub mod text;

verus! {

} // verus!
