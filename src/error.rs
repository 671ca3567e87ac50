//! The library's error type.

use vstd::prelude::*;

verus! {

/// What can go wrong in the library's own logic.
#[derive(Debug, Clone, PartialEq, Eq)]
pub enum Error {
    /// A required configuration field is absent; the field is named.
    MissingConfig(String),
    /// The one-time-code seed is not valid base32.
    InvalidBase32,
    /// A key is not valid base64.
    InvalidBase64,
    /// A private key does not decode to thirty-two bytes.
    InvalidKeyLength,
    /// The address mask sent by the server is not a number.
    InvalidIpMask,
    /// The configured endpoint-selection strategy is not known.
    UnsupportedStrategy,
    /// No endpoint answered a probe.
    NoVpnAvailable,
    /// The configured server is not a URL.
    InvalidServerUrl,
    /// A login redirect is not a URL.
    InvalidRedirectUrl,
    /// The server asks for a new login; its message, if any.
    Logout(Option<String>),
    /// The server refused an operation with a nonzero business code.
    Business { code: i32, message: Option<String> },
    /// A successful answer carried no data.
    MissingData,
    /// A password login was asked for but no password is configured.
    NoPassword,
    /// A login method offered none of the ways this client can use.
    LoginMethodFailed,
    /// No login method succeeded.
    NoLoginMethod,
    /// The tunnel engine failed to start, with this code.
    EngineStart(i32),
    /// The tunnel engine did not acknowledge a configuration.
    UnexpectedUapiResponse(String),
}

} // verus!
