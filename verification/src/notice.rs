//! What the server tells its operator, and the URL it is reached at.

use vstd::prelude::*;
use vstd::string::StringExecFns;
use crate::tls::ProvisioningError;

verus! {

/// How serious a notice is.
#[derive(Clone, Copy, Debug, PartialEq, Eq, Hash, Structural)]
pub enum Level {
    Error,
    Info,
}

/// The scheme of the server's URL: `https` with TLS, `http` without.
pub open spec fn scheme(tls: bool) -> Seq<char> {
    if tls {
        "https"@
    } else {
        "http"@
    }
}

/// The URL of a server listening on `address`, which is an IP address
/// and a port as text, such as `127.0.0.1:3000`.
pub open spec fn listening_url(tls: bool, address: Seq<char>) -> Seq<char> {
    scheme(tls) + "://"@ + address
}

/// Builds the URL under which a server listening on `address` is
/// reached.
pub fn url_of(tls: bool, address: &str) -> (url: String)
    ensures
        url@ == listening_url(tls, address@),
{
    let mut url: String = if tls {
        "https".to_owned()
    } else {
        "http".to_owned()
    };
    url.append("://");
    url.append(address);
    url
}

/// A message for the operator.
#[derive(Debug, PartialEq, Eq)]
pub enum Notice {
    /// The server accepts connections on `address`, with or without TLS.
    Listening { address: String, tls: bool },
    /// The interrupt signal arrived.
    ReceivedInterrupt,
    /// Waiting for the interrupt signal failed for `reason`.
    SignalFailed { reason: String },
    /// Shutdown begins.
    ShuttingDown,
    /// No TLS identity could be obtained.
    ProvisioningFailed { error: ProvisioningError },
    /// The listener could not be bound.
    StartFailed,
    /// The server stopped unexpectedly, for `reason`.
    ServerFailed { reason: String },
}

/// The mathematical value of a [`Notice`].
pub enum NoticeView {
    Listening { address: Seq<char>, tls: bool },
    ReceivedInterrupt,
    SignalFailed { reason: Seq<char> },
    ShuttingDown,
    ProvisioningFailed { error: ProvisioningError },
    StartFailed,
    ServerFailed { reason: Seq<char> },
}

impl View for Notice {
    type V = NoticeView;

    open spec fn view(&self) -> NoticeView {
        match self {
            Notice::Listening { address, tls } => NoticeView::Listening {
                address: address@,
                tls: *tls,
            },
            Notice::ReceivedInterrupt => NoticeView::ReceivedInterrupt,
            Notice::SignalFailed { reason } => NoticeView::SignalFailed { reason: reason@ },
            Notice::ShuttingDown => NoticeView::ShuttingDown,
            Notice::ProvisioningFailed { error } => NoticeView::ProvisioningFailed {
                error: *error,
            },
            Notice::StartFailed => NoticeView::StartFailed,
            Notice::ServerFailed { reason } => NoticeView::ServerFailed { reason: reason@ },
        }
    }
}

impl NoticeView {
    /// Failures are errors; everything else is information.
    pub open spec fn level(self) -> Level {
        match self {
            NoticeView::Listening { .. } => Level::Info,
            NoticeView::ReceivedInterrupt => Level::Info,
            NoticeView::ShuttingDown => Level::Info,
            _ => Level::Error,
        }
    }

    /// The notice as one line of text.
    pub open spec fn text(self) -> Seq<char> {
        match self {
            NoticeView::Listening { address, tls } => if tls {
                "Listening on "@ + listening_url(tls, address)
            } else {
                "Listening on: "@ + listening_url(tls, address)
            },
            NoticeView::ReceivedInterrupt => "Received Ctrl-C"@,
            NoticeView::SignalFailed { reason } => "Failed to listen for Ctrl-C: "@ + reason,
            NoticeView::ShuttingDown => "Shutting down"@,
            NoticeView::ProvisioningFailed { error } => "failed to obtain a TLS identity: "@
                + error.spec_message(),
            NoticeView::StartFailed => "failed to start server"@,
            NoticeView::ServerFailed { reason } => "server failed: "@ + reason,
        }
    }
}

impl Notice {
    /// How serious the notice is.
    pub fn level(&self) -> (level: Level)
        ensures
            level == self@.level(),
    {
        match self {
            Notice::Listening { .. } => Level::Info,
            Notice::ReceivedInterrupt => Level::Info,
            Notice::ShuttingDown => Level::Info,
            _ => Level::Error,
        }
    }

    /// Renders the notice as one line of text.
    pub fn text(&self) -> (line: String)
        ensures
            line@ == self@.text(),
    {
        match self {
            Notice::Listening { address, tls } => {
                let mut line: String = if *tls {
                    "Listening on ".to_owned()
                } else {
                    "Listening on: ".to_owned()
                };
                let url = url_of(*tls, address.as_str());
                line.append(url.as_str());
                line
            },
            Notice::ReceivedInterrupt => "Received Ctrl-C".to_owned(),
            Notice::SignalFailed { reason } => {
                let mut line: String = "Failed to listen for Ctrl-C: ".to_owned();
                line.append(reason.as_str());
                line
            },
            Notice::ShuttingDown => "Shutting down".to_owned(),
            Notice::ProvisioningFailed { error } => {
                let mut line: String = "failed to obtain a TLS identity: ".to_owned();
                line.append(error.message());
                line
            },
            Notice::StartFailed => "failed to start server".to_owned(),
            Notice::ServerFailed { reason } => {
                let mut line: String = "server failed: ".to_owned();
                line.append(reason.as_str());
                line
            },
        }
    }
}

impl Clone for Notice {
    fn clone(&self) -> (copy: Notice)
        ensures
            copy@ == self@,
    {
        match self {
            Notice::Listening { address, tls } => Notice::Listening {
                address: address.clone(),
                tls: *tls,
            },
            Notice::ReceivedInterrupt => Notice::ReceivedInterrupt,
            Notice::SignalFailed { reason } => Notice::SignalFailed { reason: reason.clone() },
            Notice::ShuttingDown => Notice::ShuttingDown,
            Notice::ProvisioningFailed { error } => Notice::ProvisioningFailed { error: *error },
            Notice::StartFailed => Notice::StartFailed,
            Notice::ServerFailed { reason } => Notice::ServerFailed { reason: reason.clone() },
        }
    }
}

} // verus!
