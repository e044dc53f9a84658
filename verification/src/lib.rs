//! A tray-icon lifecycle manager for a background service.
//!
//! The crate holds the decisions behind a status icon: which image to show,
//! what the tooltip says, what a menu entry or a click means, when the event
//! loop ends, and how the session-count feed reconnects. Each decision is a
//! function from plain values to plain values with a proved contract; the
//! operating system's tray, the event loop and the inter-process channel are
//! driven by the program that links this library.

pub mod coordinator;
pub mod feed;
pub mod icon;
pub mod menu;
pub mod palette;
pub mod platform;
pub mod text;
pub mod tray;
