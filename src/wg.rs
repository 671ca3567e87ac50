//! The line-oriented `key=value` protocol spoken to the tunnel engine.

use vstd::prelude::*;

use crate::codec::{
    b64_decode, base64_decoded, chars_of, copy_range, vec_chars_eq, decimal, hex_of, parse_i64_chars, parsed_i64,
    push_decimal, push_hex,
};
use crate::config::WgConf;
use crate::error::Error;

verus! {

/// Seconds between two health checks; a handshake older than this marks the
/// tunnel as dead.
pub const CHECK_INTERVAL_SECS: i64 = 300;

/// Log level of the tunnel engine that reports errors only.
pub const LOG_LEVEL_ERROR: i32 = 1;

/// Log level of the tunnel engine that reports everything.
pub const LOG_LEVEL_VERBOSE: i32 = 2;

/// The tunnel engine's log level: verbose when its log is asked for.
pub fn wg_log_level(with_log: bool) -> (r: i32)
    ensures
        r == (if with_log {
            LOG_LEVEL_VERBOSE
        } else {
            LOG_LEVEL_ERROR
        }),
{
    if with_log {
        LOG_LEVEL_VERBOSE
    } else {
        LOG_LEVEL_ERROR
    }
}

/// Accepts the code with which the tunnel engine started: zero is success,
/// any other code is an error that carries it.
pub fn check_start_code(code: i32) -> (r: Result<(), Error>)
    ensures
        code == 0 ==> r is Ok,
        code != 0 ==> r == Err::<(), Error>(Error::EngineStart(code)),
{
    if code == 0 {
        Ok(())
    } else {
        Err(Error::EngineStart(code))
    }
}

/// A client of the tunnel engine for one interface.
pub struct UAPIClient {
    pub name: String,
}

/// `s` begins with `p`.
pub open spec fn starts_with(s: Seq<char>, p: Seq<char>) -> bool {
    p.len() <= s.len() && s.subrange(0, p.len() as int) == p
}

/// `p` occurs somewhere in `s`.
pub open spec fn contains_text(s: Seq<char>, p: Seq<char>) -> bool {
    exists|i: int| 0 <= i && i + p.len() <= s.len() && #[trigger] s.subrange(i, i + p.len()) == p
}

/// A route with its prefix length: as given when it holds one, else `/128`
/// for an address with a colon and `/32` for any other.
pub open spec fn route_cidr(r: Seq<char>) -> Seq<char> {
    if r.contains('/') {
        r
    } else if r.contains(':') {
        r + "/128"@
    } else {
        r + "/32"@
    }
}

/// One `key` line per route, each route with its prefix length.
pub open spec fn route_lines(key: Seq<char>, routes: Seq<String>) -> Seq<char>
    decreases routes.len(),
{
    if routes.len() == 0 {
        Seq::empty()
    } else {
        route_lines(key, routes.drop_last()) + key + route_cidr(routes.last()@) + "\n"@
    }
}

/// The configuration request for `c`, given both keys in hexadecimal.
pub open spec fn config_message(c: WgConf, private_hex: Seq<char>, peer_hex: Seq<char>) -> Seq<char> {
    let head = "set=1\n"@ + "private_key="@ + private_hex + "\n"@ + "replace_peers=true\n"@
        + "public_key="@ + peer_hex + "\n"@ + "replace_allowed_ips=true\n"@ + "endpoint="@
        + c.peer_address@ + "\n"@ + "persistent_keepalive_interval=10\n"@;
    let with_ips = head + route_lines("allowed_ip="@, c.route@);
    let with_v4 = with_ips + "address="@ + c.address@ + "\n"@;
    let with_v6 = if c.address6@.len() > 0 {
        with_v4 + "address="@ + c.address6@ + "\n"@
    } else {
        with_v4
    };
    with_v6 + "mtu="@ + decimal(c.mtu as nat) + "\n"@ + "up=true\n"@ + route_lines(
        "route="@,
        c.route@,
    ) + "\n"@
}

fn has_char(s: &str, c: char) -> (r: bool)
    ensures
        r == s@.contains(c),
{
    let t = chars_of(s);
    let mut i: usize = 0;
    while i < t.len()
        invariant
            t@ == s@,
            i <= t@.len(),
            forall|j: int| 0 <= j < i ==> t@[j] != c,
        decreases t@.len() - i,
    {
        if t[i] == c {
            return true;
        }
        i = i + 1;
    }
    false
}

/// The route with its prefix length, as the configuration lines carry it.
pub fn route_with_prefix(route: &str) -> (r: String)
    ensures
        r@ == route_cidr(route@),
{
    let mut s = String::from_str(route);
    if has_char(route, '/') {
    } else if has_char(route, ':') {
        s.append("/128");
    } else {
        s.append("/32");
    }
    s
}

fn push_route_lines(s: &mut String, key: &str, routes: &Vec<String>)
    ensures
        final(s)@ == old(s)@ + route_lines(key@, routes@),
{
    let mut i: usize = 0;
    while i < routes.len()
        invariant
            i <= routes@.len(),
            s@ == old(s)@ + route_lines(key@, routes@.subrange(0, i as int)),
        decreases routes@.len() - i,
    {
        s.append(key);
        let r = route_with_prefix(routes[i].as_str());
        s.append(r.as_str());
        s.append("\n");
        assert(routes@.subrange(0, i + 1).drop_last() == routes@.subrange(0, i as int));
        assert(s@ == old(s)@ + route_lines(key@, routes@.subrange(0, i + 1)));
        i = i + 1;
    }
    assert(routes@.subrange(0, routes@.len() as int) == routes@);
}

/// The request that configures the tunnel engine for `conf`: the lines
/// `set=1`, the private key, `replace_peers=true`, the peer key,
/// `replace_allowed_ips=true`, the endpoint, the keep-alive interval, one
/// `allowed_ip` per route, the addresses, the MTU, `up=true` and one `route`
/// per route, then a blank line. Both keys are sent in hexadecimal; a key
/// that is not valid base64 is an error.
pub fn config_request(conf: &WgConf) -> (r: Result<String, Error>)
    ensures
        match r {
            Ok(m) => {
                &&& base64_decoded(conf.private_key@) is Some
                &&& base64_decoded(conf.peer_key@) is Some
                &&& m@ == config_message(
                    *conf,
                    hex_of(base64_decoded(conf.private_key@)->0),
                    hex_of(base64_decoded(conf.peer_key@)->0),
                )
            },
            Err(e) => e == Error::InvalidBase64 && (base64_decoded(conf.private_key@) is None
                || base64_decoded(conf.peer_key@) is None),
        },
{
    let private_key = b64_decode(conf.private_key.as_str())?;
    let public_key = b64_decode(conf.peer_key.as_str())?;
    let mut s = String::from_str("set=1\n");
    s.append("private_key=");
    push_hex(&mut s, private_key.as_slice());
    s.append("\n");
    s.append("replace_peers=true\n");
    s.append("public_key=");
    push_hex(&mut s, public_key.as_slice());
    s.append("\n");
    s.append("replace_allowed_ips=true\n");
    s.append("endpoint=");
    s.append(conf.peer_address.as_str());
    s.append("\n");
    s.append("persistent_keepalive_interval=10\n");
    push_route_lines(&mut s, "allowed_ip=", &conf.route);
    s.append("address=");
    s.append(conf.address.as_str());
    s.append("\n");
    if conf.address6.unicode_len() > 0 {
        s.append("address=");
        s.append(conf.address6.as_str());
        s.append("\n");
    }
    s.append("mtu=");
    push_decimal(&mut s, conf.mtu as u64);
    s.append("\n");
    s.append("up=true\n");
    push_route_lines(&mut s, "route=", &conf.route);
    s.append("\n");
    Ok(s)
}

fn find_text(t: &Vec<char>, p: &Vec<char>) -> (r: bool)
    ensures
        r == contains_text(t@, p@),
{
    if p.len() > t.len() {
        return false;
    }
    if p.len() == 0 {
        assert(t@.subrange(0, 0 + p@.len() as int) =~= p@);
        return true;
    }
    let n = t.len();
    let last = n - p.len();
    let mut i: usize = 0;
    while i <= last
        invariant
            last + p@.len() == t@.len(),
            n == t@.len(),
            p@.len() > 0,
            i <= last + 1,
            forall|k: int| 0 <= k < i ==> #[trigger] t@.subrange(k, k + p@.len()) != p@,
        decreases last + 1 - i,
    {
        let mut j: usize = 0;
        let mut same = true;
        while j < p.len()
            invariant
                i <= last,
                last + p@.len() == t@.len(),
                n == t@.len(),
                j <= p@.len(),
                same <==> (forall|m: int| 0 <= m < j ==> t@[i + m] == p@[m]),
            decreases p@.len() - j,
        {
            if t[i + j] != p[j] {
                same = false;
            }
            j = j + 1;
        }
        if same {
            assert(t@.subrange(i as int, i + p@.len()) =~= p@);
            return true;
        }
        assert(t@.subrange(i as int, i + p@.len())[0] == t@[i as int] || p@.len() == 0);
        assert(t@.subrange(i as int, i + p@.len()) != p@) by {
            let m = choose|m: int| 0 <= m < p@.len() && t@[i + m] != p@[m];
            assert(t@.subrange(i as int, i + p@.len())[m] == t@[i + m]);
        }
        i = i + 1;
    }
    assert forall|k: int| 0 <= k && k + p@.len() <= t@.len() implies #[trigger] t@.subrange(
        k,
        k + p@.len(),
    ) != p@ by {
        assert(k < i);
    }
    false
}

/// Whether `s` contains the text `p`.
pub fn contains_str(s: &str, p: &str) -> (r: bool)
    ensures
        r == contains_text(s@, p@),
{
    let t = chars_of(s);
    let q = chars_of(p);
    find_text(&t, &q)
}

/// Accepts the tunnel engine's answer to a configuration request when it
/// holds `errno=0`; any other answer is an error that carries it.
pub fn check_config_response(resp: &str) -> (r: Result<(), Error>)
    ensures
        r is Ok <==> contains_text(resp@, "errno=0"@),
        r matches Err(Error::UnexpectedUapiResponse(t)) ==> t@ == resp@,
        r is Err ==> r->Err_0 is UnexpectedUapiResponse,
{
    if contains_str(resp, "errno=0") {
        Ok(())
    } else {
        Err(Error::UnexpectedUapiResponse(resp.to_owned()))
    }
}

/// Whether a character has the Unicode `White_Space` property, which
/// `char::is_whitespace` tests.
pub open spec fn white_space(c: char) -> bool {
    ('\u{9}' <= c && c <= '\u{d}') || c == ' ' || c == '\u{85}' || c == '\u{a0}' || c == '\u{1680}'
        || ('\u{2000}' <= c && c <= '\u{200a}') || c == '\u{2028}' || c == '\u{2029}' || c
        == '\u{202f}' || c == '\u{205f}' || c == '\u{3000}'
}

fn is_white_space(c: char) -> (r: bool)
    ensures
        r == white_space(c),
{
    ('\u{9}' <= c && c <= '\u{d}') || c == ' ' || c == '\u{85}' || c == '\u{a0}' || c == '\u{1680}'
        || ('\u{2000}' <= c && c <= '\u{200a}') || c == '\u{2028}' || c == '\u{2029}' || c
        == '\u{202f}' || c == '\u{205f}' || c == '\u{3000}'
}

/// `s` without its trailing white space.
pub open spec fn trim_end(s: Seq<char>) -> Seq<char>
    decreases s.len(),
{
    if s.len() > 0 && white_space(s.last()) {
        trim_end(s.drop_last())
    } else {
        s
    }
}

/// What follows the last `c` in `s`, or all of `s` when it holds none.
pub open spec fn after_last(s: Seq<char>, c: char) -> Seq<char>
    decreases s.len(),
{
    if s.len() == 0 {
        s
    } else if s.last() == c {
        Seq::empty()
    } else {
        after_last(s.drop_last(), c).push(s.last())
    }
}

/// The length of the first line of `s`, up to a newline or the end.
pub open spec fn line_len(s: Seq<char>) -> nat
    decreases s.len(),
{
    if s.len() == 0 || s[0] == '\n' {
        0
    } else {
        1 + line_len(s.drop_first())
    }
}

/// The key of the line that reports the last handshake.
pub open spec fn handshake_key() -> Seq<char> {
    "last_handshake_time_sec"@
}

/// The last handshake time reported in the engine's answer to `get=1`: the
/// value after the last `=` of the first line that begins with
/// `last_handshake_time_sec`, read as an integer. Reading stops at the first
/// empty line.
pub open spec fn scan_handshake(s: Seq<char>) -> Option<i64>
    decreases s.len(),
{
    let n = line_len(s);
    let line = s.subrange(0, n as int);
    if starts_with(line, handshake_key()) {
        parsed_i64(after_last(trim_end(line), '='))
    } else if n == 0 || n >= s.len() {
        None
    } else {
        scan_handshake(s.subrange(n as int + 1, s.len() as int))
    }
}

/// The handshake at unix time `last` is too old at unix time `now`: a
/// handshake took place, and more than the check interval has elapsed.
pub open spec fn handshake_stale(last: i64, now: i64) -> bool {
    last != 0 && now - last > CHECK_INTERVAL_SECS
}

fn line_end(t: &Vec<char>, pos: usize) -> (e: usize)
    requires
        pos <= t@.len(),
    ensures
        pos <= e <= t@.len(),
        e - pos == line_len(t@.subrange(pos as int, t@.len() as int)),
{
    let mut e: usize = pos;
    while e < t.len() && t[e] != '\n'
        invariant
            pos <= e <= t@.len(),
            line_len(t@.subrange(pos as int, t@.len() as int)) == (e - pos) + line_len(
                t@.subrange(e as int, t@.len() as int),
            ),
        decreases t@.len() - e,
    {
        assert(t@.subrange(e as int, t@.len() as int).drop_first() =~= t@.subrange(
            e + 1,
            t@.len() as int,
        ));
        e = e + 1;
    }
    e
}

fn handshake_of_line(line: &Vec<char>) -> (r: Option<i64>)
    ensures
        r == parsed_i64(after_last(trim_end(line@), '=')),
{
    let mut k: usize = line.len();
    assert(line@.subrange(0, k as int) =~= line@);
    while k > 0 && is_white_space(line[k - 1])
        invariant
            k <= line@.len(),
            trim_end(line@) == trim_end(line@.subrange(0, k as int)),
        decreases k,
    {
        assert(line@.subrange(0, k as int).drop_last() =~= line@.subrange(0, k - 1));
        k = k - 1;
    }
    let ghost u = line@.subrange(0, k as int);
    if k > 0 {
        assert(u.last() == line@[k - 1]);
    }
    assert(trim_end(line@) == u);
    let mut m: usize = k;
    assert(u.subrange(0, m as int) =~= u);
    assert(u.subrange(m as int, k as int) =~= Seq::<char>::empty());
    while m > 0 && line[m - 1] != '='
        invariant
            m <= k <= line@.len(),
            u == line@.subrange(0, k as int),
            after_last(u, '=') == after_last(u.subrange(0, m as int), '=') + u.subrange(
                m as int,
                k as int,
            ),
        decreases m,
    {
        assert(u.subrange(0, m as int).drop_last() =~= u.subrange(0, m - 1));
        assert(u.subrange(m - 1, k as int) =~= seq![u[m - 1]] + u.subrange(m as int, k as int));
        m = m - 1;
    }
    if m > 0 {
        assert(u.subrange(0, m as int).last() == line@[m - 1]);
        assert(after_last(u.subrange(0, m as int), '=') =~= Seq::<char>::empty());
    } else {
        assert(after_last(u.subrange(0, 0), '=') =~= Seq::<char>::empty());
    }
    assert(after_last(u, '=') =~= u.subrange(m as int, k as int));
    let value = copy_range(line, m, k);
    assert(value@ =~= after_last(trim_end(line@), '='));
    parse_i64_chars(&value)
}

/// The last handshake time that the engine's answer to `get=1` reports.
pub fn last_handshake(resp: &str) -> (r: Option<i64>)
    ensures
        r == scan_handshake(resp@),
{
    let t = chars_of(resp);
    let key = chars_of("last_handshake_time_sec");
    let mut pos: usize = 0;
    assert(t@.subrange(0, t@.len() as int) =~= t@);
    loop
        invariant
            pos <= t@.len(),
            t@ == resp@,
            key@ == handshake_key(),
            scan_handshake(resp@) == scan_handshake(t@.subrange(pos as int, t@.len() as int)),
        decreases t@.len() - pos,
    {
        let ghost rest = t@.subrange(pos as int, t@.len() as int);
        let e = line_end(&t, pos);
        let line = copy_range(&t, pos, e);
        assert(line@ =~= rest.subrange(0, line_len(rest) as int));
        let mut is_key = key.len() <= line.len();
        if is_key {
            let head = copy_range(&line, 0, key.len());
            is_key = vec_chars_eq(&head, &key);
        }
        if is_key {
            return handshake_of_line(&line);
        }
        if e == pos || e >= t.len() {
            return None;
        }
        assert(rest.subrange(line_len(rest) as int + 1, rest.len() as int) =~= t@.subrange(
            e + 1,
            t@.len() as int,
        ));
        pos = e + 1;
    }
}

/// Whether the handshake at unix time `last` is too old at unix time `now`.
pub fn handshake_timed_out(last: i64, now: i64) -> (r: bool)
    ensures
        r == handshake_stale(last, now),
{
    last != 0 && (now as i128) - (last as i128)
        > CHECK_INTERVAL_SECS as i128
}

impl UAPIClient {
    /// The request that asks the engine for the interface's state.
    pub fn health_request(&self) -> (r: String)
        ensures
            r@ == "get=1\n\n"@,
    {
        String::from_str("get=1\n\n")
    }

    /// Judges one answer of the engine to the health request at unix time
    /// `now`: `true` when the tunnel is dead and must be torn down, `false`
    /// while polling should go on. An answer without a handshake time, or
    /// with a time of zero, keeps polling.
    pub fn check_wg_connection(&self, resp: &str, now: i64) -> (r: bool)
        ensures
            r == match scan_handshake(resp@) {
                Some(t) => handshake_stale(t, now),
                None => false,
            },
    {
        match last_handshake(resp) {
            Some(t) => handshake_timed_out(t, now),
            None => false,
        }
    }
}

} // verus!
