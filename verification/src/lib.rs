//! Authorization kernel for the tools of a desktop AI workstation.
//!
//! Every tool call is checked against the operator's scope, the confirmation
//! registry and the parameter rules of the tool before it may run. Each
//! decision function carries a contract that states its result exactly.

pub mod allowlist_map;
pub mod app_allowlist;
pub mod command_allowlist;
pub mod params;
pub mod policy_guard;
pub mod safe_path;
pub mod state;
pub mod text;
pub mod tool_policy;
pub mod types;
