//! Key material and the defaults that a configuration is completed with.

use vstd::prelude::*;

use base64::Engine;

use crate::codec::{b64_decode, base64_decoded, hex_of, to_hex};
use crate::config::{Config, DEFAULT_DEVICE_NAME, DEFAULT_INTERFACE_NAME};
use crate::error::Error;

verus! {

/// The standard padded base64 text of `b`.
pub uninterp spec fn base64_encoded(b: Seq<u8>) -> Seq<char>;

/// Relies on `base64`'s `STANDARD` engine `encode`: the padded base64 text of
/// the bytes.
#[verifier::external_body]
fn base64_encode(b: &[u8]) -> (r: String)
    ensures
        r@ == base64_encoded(b@),
{
    base64::engine::general_purpose::STANDARD.encode(b)
}

/// The X25519 public key of a thirty-two-byte secret.
pub uninterp spec fn x25519_public_of(secret: Seq<u8>) -> Seq<u8>;

/// Relies on `x25519_dalek`: `StaticSecret::from` on the thirty-two bytes and
/// `PublicKey::from` on that secret give its thirty-two-byte public key.
#[verifier::external_body]
fn x25519_public(secret: &[u8]) -> (r: Vec<u8>)
    requires
        secret@.len() == 32,
    ensures
        r@ == x25519_public_of(secret@),
        r@.len() == 32,
{
    let bytes: [u8; 32] = secret.try_into().unwrap();
    let sk = x25519_dalek::StaticSecret::from(bytes);
    x25519_dalek::PublicKey::from(&sk).to_bytes().to_vec()
}

/// Relies on `x25519_dalek::StaticSecret::random_from_rng` with `rand`'s
/// `OsRng`: a fresh random secret, and its public key from `PublicKey::from`.
#[verifier::external_body]
fn random_secret_and_public() -> (r: (Vec<u8>, Vec<u8>))
    ensures
        r.0@.len() == 32,
        r.1@ == x25519_public_of(r.0@),
{
    let sk = x25519_dalek::StaticSecret::random_from_rng(rand::rngs::OsRng);
    let pk = x25519_dalek::PublicKey::from(&sk);
    (sk.to_bytes().to_vec(), pk.to_bytes().to_vec())
}

/// What MD5 gives for `data`.
pub uninterp spec fn md5_of(data: Seq<u8>) -> Seq<u8>;

/// Relies on `md5::compute`: the sixteen-byte MD5 digest.
#[verifier::external_body]
fn md5_digest(data: &[u8]) -> (r: Vec<u8>)
    ensures
        r@ == md5_of(data@),
        r@.len() == 16,
{
    md5::compute(data).0.to_vec()
}

/// The public key, base64, of a base64 private key.
pub open spec fn public_key_of(private_key: Seq<char>) -> Option<Seq<char>> {
    match base64_decoded(private_key) {
        Some(b) => if b.len() == 32 {
            Some(base64_encoded(x25519_public_of(b)))
        } else {
            None
        },
        None => None,
    }
}

/// The public key, base64, that belongs to a base64 private key. A key that
/// is not base64 or not thirty-two bytes long is an error.
pub fn gen_public_key_from_private(private_key: &String) -> (r: Result<String, Error>)
    ensures
        match base64_decoded(private_key@) {
            None => r == Err::<String, Error>(Error::InvalidBase64),
            Some(b) => if b.len() == 32 {
                r matches Ok(k) && Some(k@) == public_key_of(private_key@)
            } else {
                r == Err::<String, Error>(Error::InvalidKeyLength)
            },
        },
{
    let key = b64_decode(private_key.as_str())?;
    if key.len() != 32 {
        return Err(Error::InvalidKeyLength);
    }
    let public = x25519_public(key.as_slice());
    Ok(base64_encode(public.as_slice()))
}

/// A fresh key pair: the public key and the private key, both base64.
pub fn gen_wg_keypair() -> (r: (String, String))
    ensures
        exists|secret: Seq<u8>|
            secret.len() == 32 && r.1@ == base64_encoded(secret) && r.0@ == base64_encoded(
                #[trigger] x25519_public_of(secret),
            ),
{
    let (secret, public) = random_secret_and_public();
    (base64_encode(public.as_slice()), base64_encode(secret.as_slice()))
}

/// The device id derived from a device name: the lowercase hexadecimal MD5
/// digest of its UTF-8 bytes.
pub open spec fn device_id_of(name: Seq<char>) -> Seq<char> {
    hex_of(md5_of(vstd::utf8::encode_utf8(name)))
}

/// The device id of a device name.
pub fn device_id(name: &str) -> (r: String)
    ensures
        r@ == device_id_of(name@),
{
    let digest = md5_digest(name.as_bytes());
    to_hex(digest.as_slice())
}

impl Config {
    /// Completes the configuration: the default interface and device names,
    /// the device id derived from the device name, and the keys (the public
    /// key from the private key, or a fresh pair when there is no private
    /// key). Returns whether anything was added, that is whether the
    /// configuration must be saved again.
    pub fn fill_defaults(&mut self) -> (r: Result<bool, Error>)
        ensures
            old(self).interface_name is Some ==> final(self).interface_name == old(
                self,
            ).interface_name,
            old(self).interface_name is None ==> (final(self).interface_name matches Some(n)
                && n@ == DEFAULT_INTERFACE_NAME@),
            old(self).device_name is Some ==> final(self).device_name == old(self).device_name,
            old(self).device_name is None ==> (final(self).device_name matches Some(n) && n@
                == DEFAULT_DEVICE_NAME@),
            final(self).device_name is Some,
            old(self).device_id is Some ==> final(self).device_id == old(self).device_id,
            old(self).device_id is None ==> (final(self).device_id matches Some(d) && d@
                == device_id_of(final(self).device_name->0@)),
            r is Ok ==> match old(self).private_key {
                Some(k) => final(self).private_key == old(self).private_key && match old(
                    self,
                ).public_key {
                    Some(_) => final(self).public_key == old(self).public_key,
                    None => final(self).public_key matches Some(p) && Some(p@) == public_key_of(
                        k@,
                    ),
                },
                None => final(self).private_key matches Some(sk) && final(self).public_key matches Some(pk)
                    && exists|secret: Seq<u8>|
                    secret.len() == 32 && sk@ == base64_encoded(secret) && pk@ == base64_encoded(
                        #[trigger] x25519_public_of(secret),
                    ),
            },
            r matches Ok(updated) ==> updated == (old(self).interface_name is None
                || old(self).device_name is None || old(self).device_id is None
                || old(self).private_key is None || old(self).public_key is None),
            r is Err ==> old(self).private_key is Some && old(self).public_key is None
                && public_key_of(old(self).private_key->0@) is None,
    {
        let mut updated = false;
        if self.interface_name.is_none() {
            self.interface_name = Some(String::from_str(DEFAULT_INTERFACE_NAME));
            updated = true;
        }
        if self.device_name.is_none() {
            self.device_name = Some(String::from_str(DEFAULT_DEVICE_NAME));
            updated = true;
        }
        if self.device_id.is_none() {
            let id = match &self.device_name {
                Some(n) => device_id(n.as_str()),
                None => String::new(),
            };
            self.device_id = Some(id);
            updated = true;
        }
        match &self.private_key {
            Some(k) => {
                if self.public_key.is_none() {
                    let p = gen_public_key_from_private(k)?;
                    self.public_key = Some(p);
                    updated = true;
                }
            },
            None => {
                let (p, k) = gen_wg_keypair();
                self.public_key = Some(p);
                self.private_key = Some(k);
                updated = true;
            },
        }
        Ok(updated)
    }
}

} // verus!
