//! Decision logic of the yach native backend: the permission engine, the
//! provider tool-loop budget, provider-context assembly from session logs,
//! and the labels and messages the runner reports.
pub mod agent_loop;
pub mod approval_settings;
pub mod compaction;
pub mod config;
pub mod context_laws;
pub mod extension;
pub mod json;
pub mod local_edit;
pub mod permission;
pub mod prompt_turn;
pub mod proto;
pub mod provider_context;
pub mod provider_loop;
pub mod review;
pub mod runner_events;
pub mod session;
pub mod session_files;
pub mod session_view;
pub mod shell;
pub mod sorting;
pub mod text;
pub mod tool_display;
pub mod tool_execution;
pub mod tool_round;
