//! The persisted configuration and the parameters handed to the tunnel
//! engine.

use vstd::prelude::*;

use crate::state::State;

verus! {

pub const DEFAULT_DEVICE_NAME: &'static str = "DollarOS";

pub const DEFAULT_INTERFACE_NAME: &'static str = "corplink";

/// The directory-service login method.
pub const PLATFORM_LDAP: &'static str = "ldap";

/// The built-in corporate login method.
pub const PLATFORM_CORPLINK: &'static str = "feilian";

pub const PLATFORM_OIDC: &'static str = "OIDC";

/// Also known as feishu.
pub const PLATFORM_LARK: &'static str = "lark";

pub const PLATFORM_WEIXIN: &'static str = "weixin";

/// Also known as dingding.
pub const PLATFORM_DING_TALK: &'static str = "dingtalk";

pub const PLATFORM_AAD: &'static str = "aad";

/// Probe every candidate and keep the fastest.
pub const STRATEGY_LATENCY: &'static str = "latency";

/// Keep the first candidate that answers.
pub const STRATEGY_DEFAULT: &'static str = "default";

/// The user's configuration, as it is persisted.
#[derive(Debug, Clone)]
pub struct Config {
    pub company_name: String,
    pub username: String,
    pub password: Option<String>,
    pub platform: Option<String>,
    /// The base32 seed of the one-time codes, once a login gave one.
    pub code: Option<String>,
    pub device_name: Option<String>,
    pub device_id: Option<String>,
    pub public_key: Option<String>,
    pub private_key: Option<String>,
    pub server: Option<String>,
    pub interface_name: Option<String>,
    pub debug_wg: Option<bool>,
    pub conf_file: Option<String>,
    pub state: Option<State>,
    pub vpn_server_name: Option<String>,
    pub vpn_select_strategy: Option<String>,
    pub use_vpn_dns: Option<bool>,
}

/// The parameters of one tunnel connection.
#[derive(Debug, Clone)]
pub struct WgConf {
    /// Local IPv4 address with its prefix length.
    pub address: String,
    /// Local IPv6 address with its prefix length, or empty.
    pub address6: String,
    /// The peer endpoint as `host:port`.
    pub peer_address: String,
    pub mtu: u32,
    /// Local public key, base64.
    pub public_key: String,
    /// Local private key, base64.
    pub private_key: String,
    /// The peer's public key, base64.
    pub peer_key: String,
    /// Routed networks, each a CIDR block or a bare address.
    pub route: Vec<String>,
    pub dns: String,
    /// One for a stream transport, zero for a datagram transport.
    pub protocol: i32,
}

} // verus!
