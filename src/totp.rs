//! Counter- and time-based one-time codes (RFC 4226 and RFC 6238).

use vstd::prelude::*;

use crate::codec::{lemma_pow10_monotone, pow10};

verus! {

/// Number of digits of a generated code.
pub const DIGITS: u32 = 6;

/// Length in seconds of one time slot.
pub const TIME_STEP: u64 = 30;

/// Length of an HMAC-SHA1 tag in bytes.
pub const SHA1_DIGEST_BYTES: usize = 20;

/// What HMAC-SHA1 gives for `msg` under `key`.
pub uninterp spec fn hmac_sha1_of(key: Seq<u8>, msg: Seq<u8>) -> Seq<u8>;

/// Relies on `hmac_sha1::hmac_sha1`: the twenty-byte HMAC-SHA1 tag of `msg`
/// under `key`, for a key of any length.
#[verifier::external_body]
fn hmac_sha1(key: &[u8], msg: &[u8]) -> (r: Vec<u8>)
    ensures
        r@ == hmac_sha1_of(key@, msg@),
        r@.len() == SHA1_DIGEST_BYTES,
{
    hmac_sha1::hmac_sha1(key, msg).to_vec()
}

/// The last `k` bytes of `n` in big-endian order.
pub open spec fn be_bytes(n: nat, k: nat) -> Seq<u8>
    decreases k,
{
    if k == 0 {
        Seq::empty()
    } else {
        be_bytes(n / 256, (k - 1) as nat).push((n % 256) as u8)
    }
}

fn push_be(v: &mut Vec<u8>, n: u64, k: usize)
    ensures
        final(v)@ == old(v)@ + be_bytes(n as nat, k as nat),
    decreases k,
{
    if k > 0 {
        push_be(v, n / 256, k - 1);
        v.push((n % 256) as u8);
    }
}

/// The counter as eight big-endian bytes.
pub fn counter_bytes(counter: u64) -> (r: Vec<u8>)
    ensures
        r@ == be_bytes(counter as nat, 8),
{
    let mut v: Vec<u8> = Vec::new();
    push_be(&mut v, counter, 8);
    v
}

/// RFC 4226 dynamic truncation: four bytes taken at the offset that the low
/// four bits of the last byte give, read big-endian, with the top bit cleared.
pub open spec fn dynamic_truncation(mac: Seq<u8>) -> nat
    recommends
        mac.len() == 20,
{
    let off = (mac[19] % 16) as int;
    (mac[off] % 128) as nat * 0x100_0000 + mac[off + 1] as nat * 0x1_0000 + mac[off + 2] as nat
        * 0x100 + mac[off + 3] as nat
}

/// The HOTP value of a tag: its dynamic truncation reduced to `digits` digits.
pub open spec fn code_of_mac(mac: Seq<u8>, digits: nat) -> nat {
    dynamic_truncation(mac) % pow10(digits)
}

/// The HOTP code for `key` and `counter`.
pub open spec fn hotp_code(key: Seq<u8>, counter: u64, digits: nat) -> nat {
    code_of_mac(hmac_sha1_of(key, be_bytes(counter as nat, 8)), digits)
}

fn pow10_u32(d: u32) -> (r: u32)
    requires
        d <= 9,
    ensures
        r == pow10(d as nat),
        r >= 1,
{
    let mut r: u32 = 1;
    let mut i: u32 = 0;
    while i < d
        invariant
            i <= d <= 9,
            r == pow10(i as nat),
        decreases d - i,
    {
        proof {
            lemma_pow10_monotone(i as nat, 8);
            reveal_with_fuel(pow10, 9);
        }
        r = r * 10;
        i = i + 1;
    }
    proof {
        lemma_pow10_monotone(i as nat, i as nat);
    }
    r
}

/// The code that a twenty-byte HMAC-SHA1 tag gives, reduced to `digits`
/// digits.
pub fn hotp_from_mac(mac: &[u8], digits: u32) -> (r: u32)
    requires
        mac@.len() == SHA1_DIGEST_BYTES,
        digits <= 9,
    ensures
        r == code_of_mac(mac@, digits as nat),
{
    let off = (mac[SHA1_DIGEST_BYTES - 1] % 16) as usize;
    let num: u32 = (mac[off] % 128) as u32 * 0x100_0000 + mac[off + 1] as u32 * 0x1_0000
        + mac[off + 2] as u32 * 0x100 + mac[off + 3] as u32;
    num % pow10_u32(digits)
}

/// RFC 4226 HOTP: the code for `key` at `counter`, with `digits` digits.
pub fn hotp(key: &[u8], counter: u64, digits: u32) -> (r: u32)
    requires
        digits <= 9,
    ensures
        r == hotp_code(key@, counter, digits as nat),
{
    let msg = counter_bytes(counter);
    let mac = hmac_sha1(key, msg.as_slice());
    hotp_from_mac(mac.as_slice(), digits)
}

/// A code and how many seconds of its slot are left.
#[derive(Debug, Clone, Copy, PartialEq, Eq)]
pub struct TotpSlot {
    pub code: u32,
    pub secs_left: u32,
}

/// The HOTP counter for unix time `now` shifted by `slot_offset` slots,
/// taken modulo 2^64 as the unsigned counter.
pub open spec fn totp_counter(now: u64, slot_offset: i32) -> u64 {
    let c = (now / 30) as int + slot_offset as int;
    if c >= 0 {
        c as u64
    } else {
        (c + 0x1_0000_0000_0000_0000) as u64
    }
}

/// The slot at unix time `now`, shifted by `slot_offset` slots.
pub open spec fn totp_slot(key: Seq<u8>, now: u64, slot_offset: i32) -> TotpSlot {
    TotpSlot {
        code: hotp_code(key, totp_counter(now, slot_offset), 6) as u32,
        secs_left: (30 - now % 30) as u32,
    }
}

/// The code for `key` at unix time `now`, shifted by `slot_offset` slots.
pub fn totp_at(key: &[u8], now: u64, slot_offset: i32) -> (r: TotpSlot)
    ensures
        r == totp_slot(key@, now, slot_offset),
        1 <= r.secs_left <= 30,
        r.code < 1_000_000,
{
    let slot: i64 = (now / TIME_STEP) as i64 + slot_offset as i64;
    let counter: u64 = if slot >= 0 {
        slot as u64
    } else {
        u64::MAX - ((-(slot + 1)) as u64)
    };
    let code = hotp(key, counter, DIGITS);
    proof {
        reveal_with_fuel(pow10, 7);
    }
    let secs_left = (TIME_STEP - now % TIME_STEP) as u32;
    TotpSlot { code, secs_left }
}

/// Relies on `SystemTime::now`: whole seconds since the unix epoch, or zero
/// when the clock reads earlier than the epoch.
#[verifier::external_body]
fn unix_now() -> (r: u64) {
    std::time::SystemTime::now().duration_since(std::time::UNIX_EPOCH).map(|d| d.as_secs()).unwrap_or(0)
}

/// The code for `key` now, shifted by `slot_offset` slots.
pub fn totp_offset(key: &[u8], slot_offset: i32) -> (r: TotpSlot)
    ensures
        exists|now: u64| r == totp_slot(key@, now, slot_offset),
{
    let now = unix_now();
    totp_at(key, now, slot_offset)
}

/// The code for `key` now.
pub fn totp(key: &[u8]) -> (r: u32)
    ensures
        exists|now: u64| r == (#[trigger] totp_slot(key@, now, 0)).code,
{
    let now = unix_now();
    let r = totp_at(key, now, 0);
    r.code
}

/// The number of whole slots in a clock offset, rounded toward minus
/// infinity.
pub open spec fn slots_of_offset(offset_sec: i32) -> int {
    offset_sec as int / 30
}

/// The slot shift for a clock offset of `offset_sec` seconds: the floor of
/// the offset divided by the slot length.
pub fn offset_slots(offset_sec: i32) -> (r: i32)
    ensures
        r as int == slots_of_offset(offset_sec),
{
    if offset_sec >= 0 {
        offset_sec / 30
    } else {
        let x: i64 = -(offset_sec as i64);
        let r = -((x + 29) / 30);
        r as i32
    }
}

/// With a clock offset of `offset_sec` seconds, the counter used at unix time
/// `now` is the slot of `now` plus the floor of the offset over the slot
/// length.
pub proof fn lemma_offset_counter(now: u64, offset_sec: i32)
    requires
        now as int / 30 + slots_of_offset(offset_sec) >= 0,
    ensures
        totp_counter(now, slots_of_offset(offset_sec) as i32) == now as int / 30 + offset_sec as int
            / 30,
{
}

/// Shifting the clock by `k` whole slots gives the code that the unshifted
/// clock shows `30 k` seconds later, with the same seconds left; a clock
/// offset of 65 seconds shifts by two slots, that is 60 seconds.
pub proof fn lemma_slot_shift(key: Seq<u8>, now: u64, k: i32)
    requires
        k >= 0,
        now + 30 * k <= u64::MAX,
    ensures
        totp_slot(key, now, k) == totp_slot(key, (now + 30 * k) as u64, 0),
{
    let later = (now + 30 * k) as u64;
    assert(later as int / 30 == now as int / 30 + k && later as int % 30 == now as int % 30)
        by (nonlinear_arith)
        requires
            later as int == now as int + 30 * k,
            k >= 0,
            now >= 0,
    ;
}

} // verus!
