//! Verified editor logic for Elcarax: identifiers, diagnostics, viewport
//! state, the command registry and its key bindings, undo/redo history,
//! asset indexing, the adapter wire protocol and the adapter session.
pub mod accessibility;
pub mod adapter_frame;
pub mod adapter_host;
pub mod adapter_protocol;
pub mod adapter_session;
pub mod adapter_state;
pub mod app_config;
pub mod asset_demo;
pub mod asset_index;
pub mod asset_record;
pub mod asset_scan;
pub mod asset_state;
pub mod asset_watch;
pub mod assets;
pub mod bindings;
pub mod builtin;
pub mod command;
pub mod diagnostic;
pub mod editor_commands;
pub mod editor_display;
pub mod editor_router;
pub mod editor_toolbar;
pub mod error;
pub mod history;
pub mod id;
pub mod order;
pub mod path_sort;
pub mod registry;
pub mod text;
pub mod viewport;
pub mod viewport_panel;
pub mod viewport_request;
pub mod workspace;
