//! # Create a web server application
//!
//! The base listen configuration for a server: address, port and mount
//! point, each with a fixed default and an optional override supplied as
//! environment-variable text. Reading the process environment is the
//! bootstrap code's job; the resolution of the overrides is specified here.

use vstd::prelude::*;
use vstd::string::StringExecFns;
use crate::decimal::{decimal_rep, parse_decimal, parse_u32, u16_to_decimal};

verus! {

/// The override when present, the fallback otherwise.
pub open spec fn text_or(value: Option<String>, fallback: Seq<char>) -> Seq<char> {
    match value {
        Some(text) => text@,
        None => fallback,
    }
}

/// The port an override text denotes, when it parses as an unsigned 16-bit
/// integer; the fallback when the text is absent, malformed or out of
/// range.
pub open spec fn port_or(text: Option<String>, fallback: u16) -> u16 {
    match text {
        None => fallback,
        Some(override_text) => match parse_decimal(override_text@) {
            Some(value) => if value <= u16::MAX {
                value as u16
            } else {
                fallback
            },
            None => fallback,
        },
    }
}

/// Base configuration for a server
pub struct ServerConfig {
    /// The address to attach the listener to
    pub address: String,
    /// The port to serve
    pub port: u16,
    /// The mount point of every request URL
    /// "/" is a good default to let proxy sort this
    pub mount_point: String,
}

impl Default for ServerConfig {
    /// Listen on every interface, port 8080, mounted at the root.
    fn default() -> (config: Self)
        ensures
            config.address@ == "0.0.0.0"@,
            config.port == 8080,
            config.mount_point@ == "/"@,
    {
        Self { address: "0.0.0.0".to_owned(), port: 8080, mount_point: "/".to_owned() }
    }
}

impl ServerConfig {
    /// Overlay environment-supplied text onto a fallback configuration:
    /// each field takes its override when one is present — the port only
    /// when its text parses as an unsigned 16-bit integer — and keeps the
    /// fallback otherwise.
    pub fn resolve(
        default_config: ServerConfig,
        address: Option<String>,
        port: Option<String>,
        mount_point: Option<String>,
    ) -> (config: ServerConfig)
        ensures
            config.address@ == text_or(address, default_config.address@),
            config.port == port_or(port, default_config.port),
            config.mount_point@ == text_or(mount_point, default_config.mount_point@),
    {
        let resolved_address = match address {
            Some(text) => text,
            None => default_config.address,
        };
        let resolved_port = match port {
            None => default_config.port,
            Some(text) => match parse_u32(text.as_str()) {
                Some(value) => if value <= 65535 {
                    value as u16
                } else {
                    default_config.port
                },
                None => default_config.port,
            },
        };
        let resolved_mount_point = match mount_point {
            Some(text) => text,
            None => default_config.mount_point,
        };
        ServerConfig {
            address: resolved_address,
            port: resolved_port,
            mount_point: resolved_mount_point,
        }
    }

    /// The `address:port` text the listener binds to.
    pub fn get_socket_address(&self) -> (socket_address: String)
        ensures
            socket_address@ == self.address@ + seq![':'] + decimal_rep(self.port as nat),
    {
        let mut out = self.address.clone();
        out.append(":");
        proof {
            reveal_strlit(":");
            assert(":"@ =~= seq![':']);
        }
        let port_text = u16_to_decimal(self.port);
        out.append(port_text.as_str());
        proof {
            assert((self.address@ + ":"@) + decimal_rep(self.port as nat) =~= self.address@
                + seq![':'] + decimal_rep(self.port as nat));
        }
        out
    }

    /// Whether every route mounts at the root, so the host router needs no
    /// path nesting.
    pub fn is_root_mount(&self) -> (root: bool)
        ensures
            root <==> self.mount_point@ == "/"@,
    {
        let root_mount: String = "/".to_owned();
        self.mount_point == root_mount
    }
}

} // verus!
