//! Client library for a corporate VPN control plane: authentication
//! decisions, endpoint selection, one-time codes and the line-oriented
//! protocol spoken to the tunnel engine.

pub mod api;
pub mod auth;
pub mod client;
mod codec;
pub mod config;
pub mod dns;
mod error;
pub mod keys;
pub mod lifecycle;
pub mod resp;
pub mod select;
pub mod state;
pub mod template;
pub mod totp;
pub mod wg;

pub use codec::{
    b32_decode, b64_decode, b64_decode_to_hex, parse_i64, parse_u32, to_decimal, to_hex,
    to_zero_padded,
};
pub use error::Error;
pub use keys::{device_id, gen_public_key_from_private, gen_wg_keypair};
