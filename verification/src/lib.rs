//! Logic of a small tray utility that shows Codex usage windows, reset credits
//! and account identity: response normalisation, display text, menu layout and
//! the decisions that drive the popup and the tray menu.

pub mod menu;
pub mod text;
pub mod usage;
pub mod auth;
pub mod request;
pub mod display;
pub mod popup;
pub mod theme;
pub mod tray;
pub mod panel;
pub mod instance;
pub mod events;
