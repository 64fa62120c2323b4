//! Verified core of the Z3R launcher: URL validation, project discovery
//! decisions, command plans and the data models shared with the frontend.

pub mod text;
pub mod github;
pub mod models;
pub mod actions;
pub mod asset_builds;
pub mod discovery;
pub mod command_env;
pub mod makefile_patches;
pub mod webview;
