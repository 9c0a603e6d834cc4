//! Persistent user settings.
//!
//! Defaults are conservative: telemetry off, no autostart, system theme,
//! standard mDNS port.
use vstd::prelude::*;
use vstd::string::*;

verus! {

#[derive(Clone, Debug, PartialEq)]
pub struct Settings {
    pub launch_on_login: bool,
    pub auto_reconnect: bool,
    pub telemetry: bool,
    /// "system" | "light" | "dark"
    pub theme: String,
    pub mdns_port: u16,
}

impl Default for Settings {
    fn default() -> (s: Self)
        ensures
            !s.launch_on_login,
            s.auto_reconnect,
            !s.telemetry,
            s.theme@ == "system"@,
            s.mdns_port == 5353,
    {
        Self {
            launch_on_login: false,
            auto_reconnect: true,
            telemetry: false,
            theme: String::from_str("system"),
            mdns_port: 5353,
        }
    }
}

} // verus!
