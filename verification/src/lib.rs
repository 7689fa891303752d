//! Window lifecycle controller for a tray-resident desktop shell.
//!
//! The host GUI framework owns the window, the tray icon and the event loop;
//! this crate holds the decisions: which tray and menu events show, hide or
//! quit the window, where the window is placed at startup, and what a caller
//! of the notification command may observe.

pub mod controller;
pub mod notify;
pub mod position;
pub mod startup;
