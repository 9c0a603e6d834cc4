//! FlowControl core: the platform-independent logic that lets one mouse
//! travel between two machines placed side by side.

pub mod screen_layout;
pub mod protocol;
pub mod edge_detection;
pub mod state_machine;
pub mod fingerprint;
pub mod network;
pub mod coordinator;
pub mod input;
pub mod settings;
pub mod commands;
pub mod tray;
