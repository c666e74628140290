//! The server's configuration, injected at startup and read-only for the
//! core, with the defaults that apply where the file leaves a key unset.

use vstd::prelude::*;

verus! {

/// What the configuration file provides: the listening port, the identity
/// file with its password, and the document root.
#[derive(Debug)]
pub struct Config {
    pub port: Option<u16>,
    pub certificate_file: Option<String>,
    pub certificate_password: String,
    pub static_root: Option<String>,
}

impl Config {
    /// The listening port, defaulting to the protocol's own 1965.
    pub fn port_or_default(&self) -> (r: u16)
        ensures
            r == (match self.port {
                Some(p) => p,
                None => 1965u16,
            }),
    {
        match self.port {
            Some(p) => p,
            None => 1965,
        }
    }

    /// The identity (certificate) file, defaulting to the fixed system path.
    pub fn certificate_file_or_default(&self) -> (r: String)
        ensures
            r@ == (match self.certificate_file {
                Some(f) => f@,
                None => "/etc/taurus/identity.pfx"@,
            }),
    {
        match &self.certificate_file {
            Some(f) => f.clone(),
            None => String::from_str("/etc/taurus/identity.pfx"),
        }
    }

    /// The document root, defaulting to the fixed system path.
    pub fn static_root_or_default(&self) -> (r: String)
        ensures
            r@ == (match self.static_root {
                Some(f) => f@,
                None => "/var/www/gemini"@,
            }),
    {
        match &self.static_root {
            Some(f) => f.clone(),
            None => String::from_str("/var/www/gemini"),
        }
    }
}

} // verus!
