//! The result that one port's task produces.

use vstd::prelude::*;

verus! {

/// Whether a TCP connection to the port could be established in time.
#[derive(Clone, Copy, Debug, PartialEq, Eq, Structural)]
pub enum PortStatus {
    /// A connection was completed before the timeout.
    Open,
    /// The connection was refused, failed, or did not complete in time.
    Closed,
}

/// The outcome for one port: its number, its status and, for an open port
/// from which text was captured, that text. Immutable once made.
#[derive(Clone, Debug, PartialEq, Eq)]
pub struct PortResult {
    port: u16,
    status: PortStatus,
    banner: Option<String>,
}

impl PortResult {
    /// The port that this result is about.
    pub closed spec fn spec_port(&self) -> u16 {
        self.port
    }

    /// The port's status.
    pub closed spec fn spec_status(&self) -> PortStatus {
        self.status
    }

    /// The captured banner text, if any.
    pub closed spec fn spec_banner(&self) -> Option<Seq<char>> {
        match self.banner {
            Some(text) => Some(text@),
            None => None,
        }
    }

    /// A banner is only ever attached to an open port, and is never empty.
    pub open spec fn wf(&self) -> bool {
        match self.spec_banner() {
            Some(text) => self.spec_status() == PortStatus::Open && text.len() > 0,
            None => true,
        }
    }

    /// The result for a port that did not accept a connection.
    pub fn closed(port: u16) -> (r: PortResult)
        ensures
            r.wf(),
            r.spec_port() == port,
            r.spec_status() == PortStatus::Closed,
            r.spec_banner() is None,
    {
        PortResult { port, status: PortStatus::Closed, banner: None }
    }

    /// The result for a port that accepted a connection and from which no
    /// banner was captured.
    pub fn open(port: u16) -> (r: PortResult)
        ensures
            r.wf(),
            r.spec_port() == port,
            r.spec_status() == PortStatus::Open,
            r.spec_banner() is None,
    {
        PortResult { port, status: PortStatus::Open, banner: None }
    }

    /// The result for a port that accepted a connection, with the text that
    /// was captured from it. Empty text counts as no banner.
    pub fn open_with(port: u16, banner: Option<String>) -> (r: PortResult)
        ensures
            r.wf(),
            r.spec_port() == port,
            r.spec_status() == PortStatus::Open,
            r.spec_banner() == match banner {
                Some(text) => if text@.len() > 0 {
                    Some(text@)
                } else {
                    None
                },
                None => None,
            },
    {
        let kept = match banner {
            Some(text) => if text.as_str().is_empty() {
                None
            } else {
                Some(text)
            },
            None => None,
        };
        PortResult { port, status: PortStatus::Open, banner: kept }
    }

    /// The port that this result is about.
    pub fn port(&self) -> (r: u16)
        ensures
            r == self.spec_port(),
    {
        self.port
    }

    /// The port's status.
    pub fn status(&self) -> (r: PortStatus)
        ensures
            r == self.spec_status(),
    {
        self.status
    }

    /// Whether the port accepted a connection.
    pub fn is_open(&self) -> (r: bool)
        ensures
            r == (self.spec_status() == PortStatus::Open),
    {
        match self.status {
            PortStatus::Open => true,
            PortStatus::Closed => false,
        }
    }

    /// The captured banner text, if any.
    pub fn banner(&self) -> (r: Option<&String>)
        ensures
            match r {
                Some(text) => self.spec_banner() == Some(text@),
                None => self.spec_banner() is None,
            },
    {
        self.banner.as_ref()
    }
}

} // verus!
