//! The server's configuration, as the command line supplies it.

use vstd::prelude::*;
use crate::address::{IpAddress, SocketAddress};

verus! {

/// How much the server logs, from nothing to everything.
#[derive(Clone, Copy, Debug, PartialEq, Eq, Hash, Structural)]
pub enum Verbosity {
    Off,
    Error,
    Warn,
    Info,
    Debug,
    Trace,
}

/// The parsed command line. It is fixed once parsed: nothing in the
/// library changes a field.
#[derive(Debug, PartialEq, Eq)]
pub struct Cli {
    /// Logging level.
    pub verbosity: Verbosity,
    /// Address to listen on.
    pub bind: IpAddress,
    /// Port to listen on; 0 leaves the choice to the operating system.
    pub port: u16,
    /// Whether to open the served URL in a browser once listening.
    pub open: bool,
    /// Where the TLS certificate and key are kept. `None` serves
    /// plain HTTP.
    pub data_dir: Option<String>,
}

/// The mathematical value of a [`Cli`].
pub struct CliView {
    pub verbosity: Verbosity,
    pub bind: IpAddress,
    pub port: u16,
    pub open: bool,
    pub data_dir: Option<Seq<char>>,
}

impl CliView {
    /// The address the server is asked to listen on.
    pub open spec fn addr(self) -> SocketAddress {
        SocketAddress { ip: self.bind, port: self.port }
    }

    /// Whether the server terminates TLS, which it does exactly when a
    /// data directory is configured.
    pub open spec fn uses_tls(self) -> bool {
        self.data_dir is Some
    }

    /// The configuration used when no flag is given: plain HTTP on
    /// `127.0.0.1:3000`, logging at `Info`, no browser.
    pub open spec fn defaults() -> CliView {
        CliView {
            verbosity: Verbosity::Info,
            bind: IpAddress::V4(127, 0, 0, 1),
            port: 3000,
            open: false,
            data_dir: None,
        }
    }
}

impl View for Cli {
    type V = CliView;

    open spec fn view(&self) -> CliView {
        CliView {
            verbosity: self.verbosity,
            bind: self.bind,
            port: self.port,
            open: self.open,
            data_dir: match self.data_dir {
                Some(dir) => Some(dir@),
                None => None,
            },
        }
    }
}

impl Cli {
    /// The address to listen on: the configured IP with the configured
    /// port, both unchanged.
    pub fn addr(&self) -> (addr: SocketAddress)
        ensures
            addr == self@.addr(),
            addr.ip == self.bind,
            addr.port == self.port,
    {
        SocketAddress { ip: self.bind, port: self.port }
    }

    /// Whether a TLS data directory is configured.
    pub fn uses_tls(&self) -> (tls: bool)
        ensures
            tls == self@.uses_tls(),
    {
        self.data_dir.is_some()
    }
}

impl Clone for Cli {
    fn clone(&self) -> (copy: Cli)
        ensures
            copy@ == self@,
    {
        Cli {
            verbosity: self.verbosity,
            bind: self.bind,
            port: self.port,
            open: self.open,
            data_dir: match &self.data_dir {
                Some(dir) => Some(dir.clone()),
                None => None,
            },
        }
    }
}

impl Default for Cli {
    fn default() -> (cli: Cli)
        ensures
            cli@ == CliView::defaults(),
    {
        Cli {
            verbosity: Verbosity::Info,
            bind: IpAddress::V4(127, 0, 0, 1),
            port: 3000,
            open: false,
            data_dir: None,
        }
    }
}

} // verus!
