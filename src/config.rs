//! Server configuration as plain values.
use crate::text::{decimal, push_decimal, push_str};
use vstd::prelude::*;

verus! {

/// The commandline flags for the server
#[derive(Debug, Clone)]
pub struct Flags {
    /// Which config file to use
    pub cfg: Option<String>,
    /// Which port to use (if cfg isn't present)
    pub port: Option<u16>,
}

/// The TLS config options
#[derive(Debug, Clone)]
pub struct Tls {
    /// Whether the TLS config is actually used
    pub enabled: bool,
    /// Which certificate file to use
    pub cert: String,
    /// Which key file to use
    pub key: String,
}

impl Flags {
    /// The address to listen on when no config file is given: all interfaces on
    /// the chosen port, or `127.0.0.1:9002`. `None` where a config file is given,
    /// which then names the address.
    pub fn fallback_addr(&self) -> (r: Option<String>)
        ensures
            self.cfg is Some ==> r is None,
            self.cfg is None ==> (r matches Some(a) && a@ == match self.port {
                Some(p) => "0.0.0.0:"@ + decimal(p as nat),
                None => "127.0.0.1:9002"@,
            }),
    {
        if self.cfg.is_some() {
            return None;
        }
        let mut out = String::new();
        match self.port {
            Some(p) => {
                push_str(&mut out, "0.0.0.0:");
                push_decimal(&mut out, p as u64);
            },
            None => push_str(&mut out, "127.0.0.1:9002"),
        }
        Some(out)
    }
}

} // verus!
