//! The process configuration: resolved once at startup from two optional
//! settings and then shared read-only by every connection.

use vstd::prelude::*;

verus! {

/// Where the responder listens when no address is set.
pub const DEFAULT_LISTEN_ADDRESS: &'static str = "127.0.0.1:8080";

/// The success text when none is set.
pub const DEFAULT_OK_TEXT: &'static str = "OK";

/// The setting's value, or `default` when it is unset.
pub open spec fn setting_or(setting: Option<Seq<char>>, default: Seq<char>) -> Seq<char> {
    match setting {
        Some(v) => v,
        None => default,
    }
}

pub open spec fn setting_view(setting: Option<String>) -> Option<Seq<char>> {
    match setting {
        Some(v) => Some(v@),
        None => None,
    }
}

/// Immutable process configuration.
pub struct Config {
    /// A `host:port` string to bind.
    pub listen_address: String,
    /// Embedded verbatim in every success status line.
    pub ok_text: String,
}

impl Config {
    /// Resolves the configuration from the listen-address and success-text
    /// settings, each falling back to its default when unset.
    pub fn from_settings(listen_address: Option<String>, ok_text: Option<String>) -> (r: Config)
        ensures
            r.listen_address@ == setting_or(setting_view(listen_address), "127.0.0.1:8080"@),
            r.ok_text@ == setting_or(setting_view(ok_text), "OK"@),
    {
        let listen_address = match listen_address {
            Some(a) => a,
            None => String::from_str(DEFAULT_LISTEN_ADDRESS),
        };
        let ok_text = match ok_text {
            Some(t) => t,
            None => String::from_str(DEFAULT_OK_TEXT),
        };
        Config { listen_address, ok_text }
    }
}

} // verus!
