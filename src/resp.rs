//! The bodies that the backend answers with.

use vstd::prelude::*;

use crate::error::Error;

verus! {

/// Business code of a successful call.
pub const CODE_OK: i32 = 0;

/// Business code that asks the client to log in again.
pub const CODE_LOGOUT: i32 = 101;

/// Every answer of the backend: a business code, an optional message and
/// optional data.
#[derive(Debug)]
pub struct Resp<T> {
    pub code: i32,
    pub message: Option<String>,
    pub data: Option<T>,
    pub action: Option<String>,
}

impl<T> Resp<T> {
    /// The data of a successful answer. Code 101 is a logout; any other
    /// nonzero code is a business failure; a success without data is an
    /// error too.
    pub fn into_data(self) -> (r: Result<T, Error>)
        ensures
            self.code == CODE_OK && self.data is Some ==> r == Ok::<T, Error>(self.data->0),
            self.code == CODE_OK && self.data is None ==> r == Err::<T, Error>(Error::MissingData),
            self.code == CODE_LOGOUT ==> r == Err::<T, Error>(Error::Logout(self.message)),
            self.code != CODE_OK && self.code != CODE_LOGOUT ==> r == Err::<T, Error>(
                Error::Business { code: self.code, message: self.message },
            ),
    {
        if self.code == CODE_OK {
            match self.data {
                Some(d) => Ok(d),
                None => Err(Error::MissingData),
            }
        } else if self.code == CODE_LOGOUT {
            Err(Error::Logout(self.message))
        } else {
            Err(Error::Business { code: self.code, message: self.message })
        }
    }
}

#[derive(Debug)]
pub struct RespCompany {
    pub name: String,
    pub zh_name: String,
    pub en_name: String,
    pub domain: String,
    pub enable_self_signed: bool,
    pub self_signed_cert: String,
    pub enable_public_key: bool,
    pub public_key: String,
}

/// The login methods that the server accepts, in the order to try them.
#[derive(Debug)]
pub struct RespLoginMethod {
    pub mfa: bool,
    pub auth: Vec<String>,
    pub login_orders: Vec<String>,
}

/// A third-party login method: its alias, the link the user confirms at
/// and the token to check afterwards.
#[derive(Debug)]
pub struct RespTpsLoginMethod {
    pub alias: String,
    pub login_url: String,
    pub token: String,
}

/// The sub-methods of the built-in login method, such as `password` or
/// `email`.
#[derive(Debug)]
pub struct RespCorplinkLoginMethod {
    pub auth: Vec<String>,
}

/// The redirect that a successful login gives.
#[derive(Debug)]
pub struct RespLogin {
    pub url: String,
}

/// A candidate tunnel endpoint.
#[derive(Debug)]
pub struct RespVpnInfo {
    pub api_port: u16,
    pub vpn_port: u16,
    pub ip: String,
    /// One for a stream transport, two for a datagram transport.
    pub protocol_mode: i32,
    pub name: String,
    pub en_name: String,
    pub icon: String,
    pub id: i32,
    pub timeout: i32,
}

#[derive(Debug)]
pub struct RespWgExtraInfo {
    pub vpn_mtu: u32,
    pub vpn_dns: String,
    pub vpn_dns_backup: String,
    pub vpn_dns_domain_split: Vec<String>,
    pub vpn_route_full: Vec<String>,
    pub vpn_route_split: Vec<String>,
    pub v6_route_split: Option<Vec<String>>,
}

/// The tunnel parameters that the server hands out.
#[derive(Debug)]
pub struct RespWgInfo {
    pub ip: String,
    pub ipv6: String,
    pub ip_mask: String,
    pub public_key: String,
    pub protocol_version: Option<String>,
    pub setting: RespWgExtraInfo,
    pub mode: u32,
}

} // verus!
