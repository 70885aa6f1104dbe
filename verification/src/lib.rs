//! Verified core of the `wasm(1)` developer tools: package references,
//! tag classification, configuration lookups, progress tracking, and the
//! decision logic of the command-line and terminal front ends.
use vstd::prelude::*;

pub mod image_entry;
pub mod install;
pub mod known_package;
pub mod listing;
pub mod meta_registry;
pub mod migration;
pub mod cli_config;
pub mod command_errors;
pub mod component;
pub mod compose;
pub mod component_errors;
pub mod config;
pub mod credential_helper;
pub mod detector;
pub mod network;
pub mod oci;
pub mod permissions;
pub mod progress;
pub mod progress_tree;
pub mod search;
pub mod sort;
pub mod store;
pub mod tags;
pub mod text;
pub mod tui_app;
pub mod tui_manager;
pub mod tui_text;
pub mod tui_views;
pub mod wit_interface;

verus! {
} // verus!
