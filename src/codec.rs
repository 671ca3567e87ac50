//! Text and byte encodings used across the library.

use vstd::prelude::*;
use vstd::string::StrSliceExecFns;

use base64::Engine;

use crate::error::Error;

verus! {

/// The lowercase hexadecimal digit for a value below sixteen.
pub open spec fn hex_digit(n: int) -> char {
    if n < 10 {
        ((n + 48) as u8) as char
    } else {
        ((n + 87) as u8) as char
    }
}

/// Two lowercase hexadecimal digits per byte, most significant first.
pub open spec fn hex_of(b: Seq<u8>) -> Seq<char>
    decreases b.len(),
{
    if b.len() == 0 {
        Seq::empty()
    } else {
        hex_of(b.drop_last()) + seq![hex_digit(b.last() as int / 16), hex_digit(b.last() as int % 16)]
    }
}

/// A hexadecimal digit, in either case.
pub open spec fn is_hex_char(c: char) -> bool {
    ('0' <= c && c <= '9') || ('a' <= c && c <= 'f') || ('A' <= c && c <= 'F')
}

/// The hexadecimal form of `b` has two digits per byte.
pub proof fn lemma_hex_of(b: Seq<u8>)
    ensures
        hex_of(b).len() == 2 * b.len(),
        forall|i: int| 0 <= i < hex_of(b).len() ==> #[trigger] is_hex_char(hex_of(b)[i]),
    decreases b.len(),
{
    if b.len() > 0 {
        lemma_hex_of(b.drop_last());
        let x = b.last() as int;
        assert(is_hex_char(hex_digit(x / 16)));
        assert(is_hex_char(hex_digit(x % 16)));
        let h = hex_of(b);
        let p = hex_of(b.drop_last());
        assert forall|i: int| 0 <= i < h.len() implies #[trigger] is_hex_char(h[i]) by {
            if i < p.len() {
                assert(h[i] == p[i]);
            }
        }
    }
}

/// Relies on `String::push`: the character is appended at the end.
#[verifier::external_body]
pub(crate) fn push_char(s: &mut String, c: char)
    ensures
        final(s)@ == old(s)@.push(c),
{
    s.push(c)
}

fn hex_char(n: u8) -> (c: char)
    requires
        n < 16,
    ensures
        c == hex_digit(n as int),
{
    if n < 10 {
        (n + 48) as char
    } else {
        (n + 87) as char
    }
}

/// Appends the lowercase hexadecimal form of `b` to `s`.
pub fn push_hex(s: &mut String, b: &[u8])
    ensures
        final(s)@ == old(s)@ + hex_of(b@),
{
    let mut i: usize = 0;
    while i < b.len()
        invariant
            i <= b@.len(),
            s@ == old(s)@ + hex_of(b@.subrange(0, i as int)),
        decreases b@.len() - i,
    {
        let x = b[i];
        push_char(s, hex_char(x / 16));
        push_char(s, hex_char(x % 16));
        assert(b@.subrange(0, i + 1).drop_last() == b@.subrange(0, i as int));
        i = i + 1;
    }
    assert(b@.subrange(0, b@.len() as int) == b@);
}

/// The lowercase hexadecimal form of `b`.
pub fn to_hex(b: &[u8]) -> (r: String)
    ensures
        r@ == hex_of(b@),
{
    let mut s = String::new();
    push_hex(&mut s, b);
    s
}

/// The decimal digit character for a value below ten.
pub open spec fn digit_char(d: int) -> char {
    ((d + 48) as u8) as char
}

/// The decimal form of `n`, without sign or leading zeros.
pub open spec fn decimal(n: nat) -> Seq<char>
    decreases n,
{
    if n < 10 {
        seq![digit_char(n as int)]
    } else {
        decimal(n / 10) + seq![digit_char((n % 10) as int)]
    }
}

/// The decimal form of `n`, left-padded with zeros to at least `width` characters.
pub open spec fn zero_padded(n: nat, width: nat) -> Seq<char> {
    let d = decimal(n);
    if d.len() < width {
        Seq::new((width - d.len()) as nat, |i: int| '0') + d
    } else {
        d
    }
}

/// Appends the decimal form of `n` to `s`.
pub fn push_decimal(s: &mut String, n: u64)
    ensures
        final(s)@ == old(s)@ + decimal(n as nat),
    decreases n,
{
    if n >= 10 {
        push_decimal(s, n / 10);
    }
    let d = (n % 10) as u8;
    push_char(s, (d + 48) as char);
}

/// The decimal form of `n`.
pub fn to_decimal(n: u64) -> (r: String)
    ensures
        r@ == decimal(n as nat),
{
    let mut s = String::new();
    push_decimal(&mut s, n);
    s
}

proof fn lemma_decimal_len_bound(n: nat, k: nat)
    requires
        n < pow10(k),
        k >= 1,
    ensures
        decimal(n).len() <= k,
    decreases k,
{
    if n >= 10 {
        assert(n / 10 < pow10((k - 1) as nat)) by {
            assert(pow10(k) == 10 * pow10((k - 1) as nat));
        }
        lemma_decimal_len_bound(n / 10, (k - 1) as nat);
    }
}

pub(crate) proof fn lemma_pow10_monotone(i: nat, j: nat)
    requires
        i <= j,
    ensures
        1 <= pow10(i) <= pow10(j),
    decreases j,
{
    if j > i {
        lemma_pow10_monotone(i, (j - 1) as nat);
    } else if i > 0 {
        lemma_pow10_monotone((i - 1) as nat, (i - 1) as nat);
    }
}

/// Ten to the power `k`.
pub open spec fn pow10(k: nat) -> nat
    decreases k,
{
    if k == 0 {
        1
    } else {
        10 * pow10((k - 1) as nat)
    }
}

/// The decimal form of `n` padded with zeros to `width` characters, for a
/// value that has at most `width` digits.
pub fn to_zero_padded(n: u64, width: usize) -> (r: String)
    requires
        width >= 1,
        n < pow10(width as nat),
    ensures
        r@ == zero_padded(n as nat, width as nat),
        r@.len() == width,
{
    let digits = to_decimal(n);
    proof {
        lemma_decimal_len_bound(n as nat, width as nat);
    }
    let len = digits.unicode_len();
    let mut s = String::new();
    let mut i: usize = len;
    while i < width
        invariant
            len <= i <= width,
            s@ == Seq::new((i - len) as nat, |j: int| '0'),
        decreases width - i,
    {
        push_char(&mut s, '0');
        i = i + 1;
    }
    s.append(digits.as_str());
    s
}

/// A decimal digit character.
pub open spec fn is_digit(c: char) -> bool {
    '0' <= c && c <= '9'
}

/// The value of a run of decimal digits.
pub open spec fn digits_value(s: Seq<char>) -> nat
    decreases s.len(),
{
    if s.len() == 0 {
        0
    } else {
        digits_value(s.drop_last()) * 10 + ((s.last() as int - 48) as nat)
    }
}

/// A non-empty run of decimal digits.
pub open spec fn all_digits(s: Seq<char>) -> bool {
    s.len() > 0 && forall|i: int| 0 <= i < s.len() ==> #[trigger] is_digit(s[i])
}

/// The text of an integer once an optional leading `+` is removed.
pub open spec fn without_plus(s: Seq<char>) -> Seq<char> {
    if s.len() > 0 && s[0] == '+' {
        s.drop_first()
    } else {
        s
    }
}

/// What reading `s` as an unsigned 32-bit integer yields: an optional `+`
/// followed by at least one digit, with a value that fits.
pub open spec fn parsed_u32(s: Seq<char>) -> Option<u32> {
    let t = without_plus(s);
    if all_digits(t) && digits_value(t) <= u32::MAX {
        Some(digits_value(t) as u32)
    } else {
        None
    }
}

/// What reading `s` as a signed 64-bit integer yields: an optional sign
/// followed by at least one digit, with a value that fits.
pub open spec fn parsed_i64(s: Seq<char>) -> Option<i64> {
    if s.len() > 0 && s[0] == '-' {
        let t = s.drop_first();
        if all_digits(t) && digits_value(t) <= 0x8000_0000_0000_0000 {
            Some((-digits_value(t)) as i64)
        } else {
            None
        }
    } else {
        let t = without_plus(s);
        if all_digits(t) && digits_value(t) <= i64::MAX {
            Some(digits_value(t) as i64)
        } else {
            None
        }
    }
}

/// The characters of `s`.
pub fn chars_of(s: &str) -> (r: Vec<char>)
    ensures
        r@ == s@,
{
    let n = s.unicode_len();
    let mut v: Vec<char> = Vec::new();
    let mut i: usize = 0;
    while i < n
        invariant
            n == s@.len(),
            i <= n,
            v@ == s@.subrange(0, i as int),
        decreases n - i,
    {
        v.push(s.get_char(i));
        i = i + 1;
    }
    v
}

/// Reads the digits `t[from..]` as a number no larger than `bound`; `None`
/// when a character is not a digit, the run is empty or the value is larger.
fn read_digits(t: &Vec<char>, from: usize, bound: u64) -> (r: Option<u64>)
    requires
        from <= t@.len(),
        9 <= bound <= u64::MAX / 10 * 10,
    ensures
        ({
            let d = t@.subrange(from as int, t@.len() as int);
            match r {
                Some(v) => all_digits(d) && digits_value(d) <= bound && v == digits_value(d),
                None => !(all_digits(d) && digits_value(d) <= bound),
            }
        }),
{
    let ghost d = t@.subrange(from as int, t@.len() as int);
    if from == t.len() {
        return None;
    }
    let mut value: u64 = 0;
    let mut i: usize = from;
    while i < t.len()
        invariant
            from <= i <= t@.len(),
            d == t@.subrange(from as int, t@.len() as int),
            9 <= bound <= u64::MAX / 10 * 10,
            forall|j: int| from <= j < i ==> #[trigger] is_digit(t@[j]),
            value == digits_value(t@.subrange(from as int, i as int)),
            value <= bound,
        decreases t@.len() - i,
    {
        let c = t[i];
        if !('0' <= c && c <= '9') {
            assert(!is_digit(d[i - from]));
            return None;
        }
        let digit = (c as u64) - 48;
        let ghost prefix = t@.subrange(from as int, i + 1);
        assert(prefix.drop_last() == t@.subrange(from as int, i as int));
        if value > (bound - digit) / 10 {
            proof {
                lemma_digits_value_prefix(d, (i + 1 - from) as nat);
                assert(d.subrange(0, (i + 1 - from) as int) == prefix);
            }
            return None;
        }
        value = value * 10 + digit;
        i = i + 1;
    }
    assert(t@.subrange(from as int, i as int) == d);
    Some(value)
}

proof fn lemma_digits_value_prefix(s: Seq<char>, k: nat)
    requires
        k <= s.len(),
    ensures
        all_digits(s) ==> digits_value(s.subrange(0, k as int)) <= digits_value(s),
    decreases s.len(),
{
    if k == s.len() {
        assert(s.subrange(0, k as int) == s);
    } else if all_digits(s) {
        let t = s.drop_last();
        assert(t.subrange(0, k as int) == s.subrange(0, k as int));
        if t.len() > 0 {
            assert(all_digits(t)) by {
                assert forall|i: int| 0 <= i < t.len() implies #[trigger] is_digit(t[i]) by {
                    assert(t[i] == s[i]);
                }
            }
            lemma_digits_value_prefix(t, k);
        } else {
            assert(s.subrange(0, k as int).len() == 0);
        }
    }
}

/// Reads `s` as an unsigned 32-bit integer, as `str::parse::<u32>` does.
pub fn parse_u32(s: &str) -> (r: Option<u32>)
    ensures
        r == parsed_u32(s@),
{
    let t = chars_of(s);
    let from: usize = if t.len() > 0 && t[0] == '+' { 1 } else { 0 };
    assert(t@.subrange(from as int, t@.len() as int) == without_plus(s@));
    match read_digits(&t, from, 0xffff_ffff) {
        Some(v) => Some(v as u32),
        None => None,
    }
}

/// Reads the characters `t` as a signed 64-bit integer, as `str::parse::<i64>`
/// does.
pub fn parse_i64_chars(t: &Vec<char>) -> (r: Option<i64>)
    ensures
        r == parsed_i64(t@),
{
    if t.len() > 0 && t[0] == '-' {
        assert(t@.subrange(1, t@.len() as int) == t@.drop_first());
        match read_digits(t, 1, 0x8000_0000_0000_0000) {
            Some(v) => {
                if v == 0x8000_0000_0000_0000 {
                    Some(i64::MIN)
                } else {
                    Some(-(v as i64))
                }
            },
            None => None,
        }
    } else {
        let from: usize = if t.len() > 0 && t[0] == '+' { 1 } else { 0 };
        assert(t@.subrange(from as int, t@.len() as int) == without_plus(t@));
        match read_digits(t, from, 0x7fff_ffff_ffff_ffff) {
            Some(v) => Some(v as i64),
            None => None,
        }
    }
}

/// Reads `s` as a signed 64-bit integer, as `str::parse::<i64>` does.
pub fn parse_i64(s: &str) -> (r: Option<i64>)
    ensures
        r == parsed_i64(s@),
{
    let t = chars_of(s);
    parse_i64_chars(&t)
}

/// The characters `t[from..to]`.
pub fn copy_range(t: &Vec<char>, from: usize, to: usize) -> (r: Vec<char>)
    requires
        from <= to <= t@.len(),
    ensures
        r@ == t@.subrange(from as int, to as int),
{
    let mut v: Vec<char> = Vec::new();
    let mut i: usize = from;
    while i < to
        invariant
            from <= i <= to <= t@.len(),
            v@ == t@.subrange(from as int, i as int),
        decreases to - i,
    {
        v.push(t[i]);
        i = i + 1;
    }
    v
}

pub(crate) fn vec_chars_eq(a: &Vec<char>, b: &Vec<char>) -> (r: bool)
    ensures
        r == (a@ == b@),
{
    if a.len() != b.len() {
        return false;
    }
    let mut i: usize = 0;
    while i < a.len()
        invariant
            a@.len() == b@.len(),
            i <= a@.len(),
            forall|j: int| 0 <= j < i ==> a@[j] == b@[j],
        decreases a@.len() - i,
    {
        if a[i] != b[i] {
            return false;
        }
        i = i + 1;
    }
    assert(a@ =~= b@);
    true
}

/// Whether two texts are equal.
pub fn str_eq(a: &str, b: &str) -> (r: bool)
    ensures
        r == (a@ == b@),
{
    let x = chars_of(a);
    let y = chars_of(b);
    vec_chars_eq(&x, &y)
}

/// What decoding `s` as standard padded base64 yields, if it is valid.
pub uninterp spec fn base64_decoded(s: Seq<char>) -> Option<Seq<u8>>;

/// Relies on `base64`'s `STANDARD` engine `decode`: the bytes that the text
/// encodes, or an error when it is not valid base64.
#[verifier::external_body]
fn base64_decode(s: &str) -> (r: Option<Vec<u8>>)
    ensures
        match r {
            Some(v) => base64_decoded(s@) == Some(v@),
            None => base64_decoded(s@) is None,
        },
{
    base64::engine::general_purpose::STANDARD.decode(s).ok()
}

/// What decoding `s` as RFC 4648 base32 yields, if it is valid.
pub uninterp spec fn base32_decoded(s: Seq<char>) -> Option<Seq<u8>>;

/// Relies on `base32::decode` with the padded RFC 4648 alphabet: the bytes
/// that the text encodes, or `None` when it is not valid base32.
#[verifier::external_body]
fn base32_decode(s: &str) -> (r: Option<Vec<u8>>)
    ensures
        match r {
            Some(v) => base32_decoded(s@) == Some(v@),
            None => base32_decoded(s@) is None,
        },
{
    base32::decode(base32::Alphabet::RFC4648 { padding: true }, s)
}

/// Decodes an RFC 4648 base32 text, such as a one-time-code seed.
pub fn b32_decode(s: &str) -> (r: Result<Vec<u8>, Error>)
    ensures
        match r {
            Ok(v) => base32_decoded(s@) == Some(v@),
            Err(e) => base32_decoded(s@) is None && e == Error::InvalidBase32,
        },
{
    match base32_decode(s) {
        Some(v) => Ok(v),
        None => Err(Error::InvalidBase32),
    }
}

/// Decodes a base64 text.
pub fn b64_decode(s: &str) -> (r: Result<Vec<u8>, Error>)
    ensures
        match r {
            Ok(v) => base64_decoded(s@) == Some(v@),
            Err(e) => base64_decoded(s@) is None && e == Error::InvalidBase64,
        },
{
    match base64_decode(s) {
        Some(v) => Ok(v),
        None => Err(Error::InvalidBase64),
    }
}

/// Decodes a base64 text, such as a key, and gives its bytes in lowercase
/// hexadecimal.
pub fn b64_decode_to_hex(s: &str) -> (r: Result<String, Error>)
    ensures
        match r {
            Ok(h) => base64_decoded(s@) is Some && h@ == hex_of(base64_decoded(s@)->0),
            Err(e) => base64_decoded(s@) is None && e == Error::InvalidBase64,
        },
{
    let data = b64_decode(s)?;
    Ok(to_hex(data.as_slice()))
}

} // verus!
