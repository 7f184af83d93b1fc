//! The error type shared by the tunnel operations.

use vstd::prelude::*;

use crate::text::push_char;

verus! {

#[verifier::external_type_specification]
#[verifier::external_body]
pub struct ExIoError(std::io::Error);

/// Every way a tunnel operation can fail.
#[derive(Debug)]
pub enum TunnelError {
    Config(String),
    WireGuard(String),
    Io(std::io::Error),
    InvalidKey(String),
    TunnelClosed,
}

/// The text of `std::io::Error`'s `Display`. Nothing is stated of it: it
/// depends on the operating system's error description.
#[verifier::external_body]
fn io_error_text(e: &std::io::Error) -> String {
    format!("{e}")
}

impl TunnelError {
    /// The prefix with which `message` starts for each variant.
    pub open spec fn message_prefix(&self) -> Seq<char> {
        match self {
            TunnelError::Config(_) => "config error: "@,
            TunnelError::WireGuard(_) => "wireguard error: "@,
            TunnelError::Io(_) => "io error: "@,
            TunnelError::InvalidKey(_) => "invalid key: "@,
            TunnelError::TunnelClosed => "tunnel closed"@,
        }
    }

    /// The human-readable text of the error (what the error's `Display`
    /// prints): a fixed prefix per variant followed by the detail it carries.
    pub fn message(&self) -> (res: String)
        ensures
            match self {
                TunnelError::Config(s) => res@ == self.message_prefix() + s@,
                TunnelError::WireGuard(s) => res@ == self.message_prefix() + s@,
                TunnelError::InvalidKey(s) => res@ == self.message_prefix() + s@,
                TunnelError::TunnelClosed => res@ == self.message_prefix(),
                TunnelError::Io(_) => self.message_prefix().is_prefix_of(res@),
            },
    {
        match self {
            TunnelError::Config(s) => {
                let mut r = "config error: ".to_owned();
                r.append(s.as_str());
                r
            },
            TunnelError::WireGuard(s) => {
                let mut r = "wireguard error: ".to_owned();
                r.append(s.as_str());
                r
            },
            TunnelError::Io(e) => {
                let mut r = "io error: ".to_owned();
                let detail = io_error_text(e);
                r.append(detail.as_str());
                r
            },
            TunnelError::InvalidKey(s) => {
                let mut r = "invalid key: ".to_owned();
                r.append(s.as_str());
                r
            },
            TunnelError::TunnelClosed => "tunnel closed".to_owned(),
        }
    }
}

impl From<std::io::Error> for TunnelError {
    /// An I/O error becomes the `Io` variant.
    fn from(e: std::io::Error) -> (res: Self) {
        TunnelError::Io(e)
    }
}

impl vstd::std_specs::convert::FromSpecImpl<std::io::Error> for TunnelError {
    open spec fn obeys_from_spec() -> bool {
        true
    }

    open spec fn from_spec(e: std::io::Error) -> Self {
        TunnelError::Io(e)
    }
}

} // verus!
