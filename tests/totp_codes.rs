use corplink::totp::{hotp, hotp_from_mac, offset_slots, totp, totp_at, totp_offset, counter_bytes};
use corplink::b32_decode;

const SECRET: &[u8] = b"12345678901234567890";

#[test]
fn hotp_matches_rfc4226_reference_codes() {
    let expected: [u32; 10] = [
        755224, 287082, 359152, 969429, 338314, 254676, 287922, 162583, 399871, 520489,
    ];
    for (counter, code) in expected.iter().enumerate() {
        assert_eq!(hotp(SECRET, counter as u64, 6), *code);
    }
}

#[test]
fn hotp_with_eight_digits_keeps_more_of_the_truncation() {
    // RFC 4226 truncated value for counter 0 is 1284755224.
    assert_eq!(hotp(SECRET, 0, 8), 84755224);
    assert_eq!(hotp(SECRET, 0, 9), 284755224);
}

#[test]
fn dynamic_truncation_of_rfc_example_tag() {
    // The example tag of RFC 4226 section 5.4.
    let mac: [u8; 20] = [
        0x1f, 0x86, 0x98, 0x69, 0x0e, 0x02, 0xca, 0x16, 0x61, 0x85, 0x50, 0xef, 0x7f, 0x19, 0xda,
        0x8e, 0x94, 0x5b, 0x55, 0x5a,
    ];
    assert_eq!(hotp_from_mac(&mac, 6), 872921);
}

#[test]
fn counter_is_eight_big_endian_bytes() {
    assert_eq!(counter_bytes(0x0102030405060708), vec![1, 2, 3, 4, 5, 6, 7, 8]);
    assert_eq!(counter_bytes(1), vec![0, 0, 0, 0, 0, 0, 0, 1]);
}

#[test]
fn clock_offset_of_65_seconds_shifts_counter_by_two() {
    let now: u64 = 1_700_000_000;
    assert_eq!(offset_slots(65), 2);
    assert_eq!(offset_slots(0), 0);
    let shifted = totp_at(SECRET, now, offset_slots(65));
    let plain = totp_at(SECRET, now, offset_slots(0));
    assert_eq!(plain.code, hotp(SECRET, now / 30, 6));
    assert_eq!(shifted.code, hotp(SECRET, now / 30 + 2, 6));
    assert_eq!(plain.code, 921300);
    assert_eq!(shifted.code, 136087);
    assert_eq!(shifted.secs_left, 10);
}

#[test]
fn negative_offsets_round_toward_minus_infinity() {
    assert_eq!(offset_slots(-1), -1);
    assert_eq!(offset_slots(-30), -1);
    assert_eq!(offset_slots(-31), -2);
    assert_eq!(offset_slots(29), 0);
    assert_eq!(offset_slots(30), 1);
}

#[test]
fn seconds_left_counts_down_within_a_slot() {
    assert_eq!(totp_at(SECRET, 60, 0).secs_left, 30);
    assert_eq!(totp_at(SECRET, 89, 0).secs_left, 1);
    assert_eq!(totp_at(SECRET, 59, 0).code, hotp(SECRET, 1, 6));
}

#[test]
fn current_codes_are_six_digit_values() {
    let slot = totp_offset(SECRET, 0);
    assert!(slot.code < 1_000_000);
    assert!(slot.secs_left >= 1 && slot.secs_left <= 30);
    assert!(totp(SECRET) < 1_000_000);
}

#[test]
fn base32_seed_decodes() {
    assert_eq!(b32_decode("GEZDGNBVGY3TQOJQGEZDGNBVGY3TQOJQ").unwrap(), SECRET.to_vec());
    assert_eq!(b32_decode("not base32!"), Err(corplink::Error::InvalidBase32));
}
