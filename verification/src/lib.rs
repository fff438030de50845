//! Verified core of the AmOS System UI host.
pub mod text;
pub mod desktop_entry;
pub mod clipboard;
pub mod error;
pub mod buttons;
pub mod ai_bridge;
pub mod airplay;
pub mod alarm;
pub mod watch_backoff;
pub mod lmk;
pub mod appstore;
pub mod voice;
pub mod ble;
pub mod blocklist;
pub mod clipboard_guest;
pub mod guest_link;
pub mod desktop_features;
pub mod devcare;
pub mod display;
pub mod dock_badge;
pub mod daemon;
