//! Verified core of a single-site desktop wrapper around whop.com: which
//! navigations and popups the webview may follow, how a server-provided
//! download name becomes a safe, non-colliding file name, what the native menu
//! holds and how its events are routed, and what the wrapper logs or shows.
//!
//! Everything here works on plain values; the desktop shell that hosts the
//! webview hands those values in and carries out the decisions that come back.
pub mod dedup;
pub mod download;
pub mod filename;
pub mod menu;
pub mod text;
pub mod web;
pub mod window;
