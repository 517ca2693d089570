//! Core of a background desktop client that keeps a persisted notification
//! mute preference and reacts to tray-menu and window events.
//!
//! The library holds the verified logic: the mute model and its on-disk
//! document, the lock-guarded shared store, the tray menu's identifier table
//! and the event dispatcher's state machine. Rendering, the platform event
//! loop and file access are driven from outside through plain values.

pub mod dispatch;
pub mod state;
pub mod tray_icon;
