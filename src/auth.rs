//! Login method dispatch and password handling.

use vstd::prelude::*;
use vstd::utf8::encode_utf8;

use crate::codec::{hex_of, is_hex_char, lemma_hex_of, push_hex, str_eq, to_hex};
use crate::config::{PLATFORM_CORPLINK, PLATFORM_LARK, PLATFORM_LDAP, PLATFORM_OIDC};
use crate::error::Error;
use crate::resp::RespTpsLoginMethod;
use crate::template::{lookup, pairs_view};

verus! {

/// How one of the server's login methods is carried out.
#[derive(Debug)]
pub enum LoginMethod {
    /// A third-party method: the user confirms at a link, then its token is
    /// checked.
    ThirdParty(RespTpsLoginMethod),
    /// The built-in corporate method, by password or by a code sent by email.
    Corplink,
    /// The directory-service method, by password.
    Ldap,
    /// A method this client does not use; it is skipped.
    Unsupported(String),
}

/// Whether the configured platform restriction allows `name`: none or an
/// empty one allows every method.
pub open spec fn platform_allows(platform: Option<Seq<char>>, name: Seq<char>) -> bool {
    match platform {
        None => true,
        Some(p) => p.len() == 0 || p == name,
    }
}

/// The third-party descriptor that `name` refers to: the last one with that
/// alias.
pub open spec fn tps_for(tps: Seq<RespTpsLoginMethod>, name: Seq<char>) -> Option<int>
    decreases tps.len(),
{
    if tps.len() == 0 {
        None
    } else if tps.last().alias@ == name {
        Some(tps.len() - 1)
    } else {
        tps_for(tps.drop_last(), name)
    }
}

/// Whether `m` is how the method named `name` is carried out, given the
/// third-party descriptors and the platform restriction.
pub open spec fn resolves_to(
    m: LoginMethod,
    name: Seq<char>,
    tps: Seq<RespTpsLoginMethod>,
    platform: Option<Seq<char>>,
) -> bool {
    if tps_for(tps, name) is Some && platform_allows(platform, name) {
        let d = tps[tps_for(tps, name)->0];
        m matches LoginMethod::ThirdParty(x) && x.alias@ == d.alias@ && x.login_url@
            == d.login_url@ && x.token@ == d.token@
    } else if name == PLATFORM_CORPLINK@ && platform_allows(platform, name) {
        m is Corplink
    } else if name == PLATFORM_LDAP@ && platform_allows(platform, name) {
        m is Ldap
    } else {
        m matches LoginMethod::Unsupported(n) && n@ == name
    }
}

pub open spec fn opt_view(o: Option<String>) -> Option<Seq<char>> {
    match o {
        Some(s) => Some(s@),
        None => None,
    }
}

/// Whether the platform restriction allows the method `name`.
pub fn platform_allowed(platform: &Option<String>, name: &str) -> (r: bool)
    ensures
        r == platform_allows(opt_view(*platform), name@),
{
    match platform {
        None => true,
        Some(p) => p.unicode_len() == 0 || str_eq(p.as_str(), name),
    }
}

fn find_tps(tps: &Vec<RespTpsLoginMethod>, name: &str) -> (r: Option<usize>)
    ensures
        match tps_for(tps@, name@) {
            Some(j) => r matches Some(i) && i as int == j,
            None => r is None,
        },
        r matches Some(i) ==> i < tps@.len(),
{
    let mut i: usize = tps.len();
    assert(tps@.subrange(0, i as int) =~= tps@);
    while i > 0
        invariant
            i <= tps@.len(),
            tps_for(tps@, name@) == tps_for(tps@.subrange(0, i as int), name@),
        decreases i,
    {
        assert(tps@.subrange(0, i as int).drop_last() =~= tps@.subrange(0, i - 1));
        if str_eq(tps[i - 1].alias.as_str(), name) {
            return Some(i - 1);
        }
        i = i - 1;
    }
    None
}

fn builtin_method(name: &String, allowed: bool) -> (r: LoginMethod)
    ensures
        if allowed && name@ == PLATFORM_CORPLINK@ {
            r is Corplink
        } else if allowed && name@ == PLATFORM_LDAP@ {
            r is Ldap
        } else {
            r matches LoginMethod::Unsupported(n) && n@ == name@
        },
{
    if allowed && str_eq(name.as_str(), PLATFORM_CORPLINK) {
        LoginMethod::Corplink
    } else if allowed && str_eq(name.as_str(), PLATFORM_LDAP) {
        LoginMethod::Ldap
    } else {
        LoginMethod::Unsupported(name.clone())
    }
}

/// Resolves each method name of the server's ordered list once: a
/// third-party descriptor of that name comes first, then the built-in and the
/// directory-service methods; each only where the platform restriction
/// allows it. Any other name is unsupported.
pub fn resolve_login_methods(
    orders: &Vec<String>,
    tps: &Vec<RespTpsLoginMethod>,
    platform: &Option<String>,
) -> (r: Vec<LoginMethod>)
    ensures
        r@.len() == orders@.len(),
        forall|k: int| 0 <= k < orders@.len() ==> resolves_to(#[trigger] r@[k], orders@[k]@, tps@, opt_view(*platform)),
{
    let mut out: Vec<LoginMethod> = Vec::new();
    let mut k: usize = 0;
    while k < orders.len()
        invariant
            k <= orders@.len(),
            out@.len() == k,
            forall|j: int| 0 <= j < k ==> resolves_to(#[trigger] out@[j], orders@[j]@, tps@, opt_view(*platform)),
        decreases orders@.len() - k,
    {
        let name = orders[k].as_str();
        let allowed = platform_allowed(platform, name);
        let m = match find_tps(tps, name) {
            Some(i) => {
                if allowed {
                    let d = &tps[i];
                    LoginMethod::ThirdParty(
                        RespTpsLoginMethod {
                            alias: d.alias.clone(),
                            login_url: d.login_url.clone(),
                            token: d.token.clone(),
                        },
                    )
                } else {
                    builtin_method(&orders[k], allowed)
                }
            },
            None => builtin_method(&orders[k], allowed),
        };
        out.push(m);
        k = k + 1;
    }
    out
}

/// Whether the third-party method `alias` can be confirmed interactively.
pub fn tps_supported(alias: &str) -> (r: bool)
    ensures
        r == (alias@ == PLATFORM_LARK@ || alias@ == PLATFORM_OIDC@),
{
    str_eq(alias, PLATFORM_LARK) || str_eq(alias, PLATFORM_OIDC)
}

/// A way of the built-in method.
#[derive(Debug, Clone, Copy, PartialEq, Eq, Structural)]
pub enum CorplinkSubmethod {
    Password,
    Email,
}

/// A configured password that is not empty.
pub open spec fn has_password(password: Option<Seq<char>>) -> bool {
    password matches Some(p) && p.len() > 0
}

/// Whether the server offers the way named `name`.
pub open spec fn offers(auth: Seq<String>, name: Seq<char>) -> bool {
    exists|i: int| 0 <= i < auth.len() && #[trigger] auth[i]@ == name
}

/// How the built-in method is used: by password when the server offers it
/// and a password is configured, else by email when the server offers it.
pub open spec fn corplink_choice(auth: Seq<String>, password: Option<Seq<char>>) -> Option<
    CorplinkSubmethod,
> {
    if offers(auth, "password"@) && has_password(password) {
        Some(CorplinkSubmethod::Password)
    } else if offers(auth, "email"@) {
        Some(CorplinkSubmethod::Email)
    } else {
        None
    }
}

fn offered(auth: &Vec<String>, name: &str) -> (r: bool)
    ensures
        r == offers(auth@, name@),
{
    let mut i: usize = 0;
    while i < auth.len()
        invariant
            i <= auth@.len(),
            forall|j: int| 0 <= j < i ==> #[trigger] auth@[j]@ != name@,
        decreases auth@.len() - i,
    {
        if str_eq(auth[i].as_str(), name) {
            assert(auth@[i as int]@ == name@);
            return true;
        }
        i = i + 1;
    }
    false
}

/// Chooses how to use the built-in method among the ways the server offers.
pub fn choose_corplink_submethod(auth: &Vec<String>, password: &Option<String>) -> (r: Option<
    CorplinkSubmethod,
>)
    ensures
        r == corplink_choice(auth@, opt_view(*password)),
{
    let has = match password {
        Some(p) => p.unicode_len() > 0,
        None => false,
    };
    if has && offered(auth, "password") {
        Some(CorplinkSubmethod::Password)
    } else if offered(auth, "email") {
        Some(CorplinkSubmethod::Email)
    } else {
        None
    }
}

/// What the directory-service check gives for the offered ways and the
/// configured password.
pub open spec fn check_ldap_result(auth: Seq<String>, password: Option<Seq<char>>) -> Result<(), Error> {
    let offered = exists|i: int| 0 <= i < auth.len() && #[trigger] auth[i]@ == "password"@;
    if offered && password is Some {
        if password->0.len() > 0 {
            Ok(())
        } else {
            Err(Error::NoPassword)
        }
    } else {
        Err(Error::LoginMethodFailed)
    }
}

/// Whether the directory-service method can log in by password: the server
/// must offer `password` and a password must be configured. An empty
/// password is `NoPassword`; anything else that fails is
/// `LoginMethodFailed`.
pub fn check_ldap_password(auth: &Vec<String>, password: &Option<String>) -> (r: Result<(), Error>)
    ensures
        r == check_ldap_result(auth@, opt_view(*password)),
{
    let mut i: usize = 0;
    while i < auth.len()
        invariant
            i <= auth@.len(),
            forall|j: int| 0 <= j < i ==> #[trigger] auth@[j]@ != "password"@,
        decreases auth@.len() - i,
    {
        if str_eq(auth[i].as_str(), "password") {
            assert(auth@[i as int]@ == "password"@);
            return match password {
                Some(p) => if p.unicode_len() > 0 {
                    Ok(())
                } else {
                    Err(Error::NoPassword)
                },
                None => Err(Error::LoginMethodFailed),
            };
        }
        i = i + 1;
    }
    Err(Error::LoginMethodFailed)
}

/// What SHA-256 gives for `data`.
pub uninterp spec fn sha256_of(data: Seq<u8>) -> Seq<u8>;

/// Relies on `sha2::Sha256::digest`: the thirty-two-byte SHA-256 digest.
#[verifier::external_body]
fn sha256(data: &[u8]) -> (r: Vec<u8>)
    ensures
        r@ == sha256_of(data@),
        r@.len() == 32,
{
    <sha2::Sha256 as sha2::Digest>::digest(data).to_vec()
}

/// A password as it is stored once hashed: sixty-four hexadecimal digits.
pub open spec fn is_hashed_password(p: Seq<char>) -> bool {
    p.len() == 64 && forall|i: int| 0 <= i < p.len() ==> #[trigger] is_hex_char(p[i])
}

/// The password that the built-in method sends: a hashed password as it is,
/// any other as the lowercase hexadecimal SHA-256 digest of its UTF-8 bytes.
pub open spec fn password_to_send(p: Seq<char>) -> Seq<char> {
    if is_hashed_password(p) {
        p
    } else {
        hex_of(sha256_of(encode_utf8(p)))
    }
}

fn is_hashed(p: &str) -> (r: bool)
    ensures
        r == is_hashed_password(p@),
{
    let t = crate::codec::chars_of(p);
    if t.len() != 64 {
        return false;
    }
    let mut i: usize = 0;
    while i < t.len()
        invariant
            t@ == p@,
            i <= t@.len(),
            forall|j: int| 0 <= j < i ==> #[trigger] is_hex_char(t@[j]),
        decreases t@.len() - i,
    {
        let c = t[i];
        if !(('0' <= c && c <= '9') || ('a' <= c && c <= 'f') || ('A' <= c && c <= 'F')) {
            assert(!is_hex_char(p@[i as int]));
            return false;
        }
        i = i + 1;
    }
    true
}

/// The password that the built-in method sends for `p`. The result is itself
/// a hashed password, so hashing it again leaves it unchanged.
pub fn hash_password(p: &str) -> (r: String)
    ensures
        r@ == password_to_send(p@),
        is_hashed_password(r@),
{
    if is_hashed(p) {
        String::from_str(p)
    } else {
        let digest = sha256(p.as_bytes());
        proof {
            lemma_hex_of(digest@);
        }
        to_hex(digest.as_slice())
    }
}

/// The login methods this client can log in by password with.
#[derive(Debug, Clone, Copy, PartialEq, Eq, Structural)]
pub enum PasswordPlatform {
    Corplink,
    Ldap,
}

/// The fields of a password login: the password as sent, and the platform
/// marker that the directory-service method adds.
pub fn password_login_fields(platform: PasswordPlatform, password: &Option<String>) -> (r: Result<
    (String, Option<String>),
    Error,
>)
    ensures
        match password {
            None => r matches Err(Error::MissingConfig(f)) && f@ == "password"@,
            Some(p) => r matches Ok((sent, marker)) && match platform {
                PasswordPlatform::Corplink => sent@ == password_to_send(p@) && marker is None,
                PasswordPlatform::Ldap => sent@ == p@ && (marker matches Some(m) && m@
                    == PLATFORM_LDAP@),
            },
        },
{
    match password {
        None => Err(Error::MissingConfig(String::from_str("password"))),
        Some(p) => match platform {
            PasswordPlatform::Corplink => Ok((hash_password(p.as_str()), None)),
            PasswordPlatform::Ldap => Ok((p.clone(), Some(String::from_str(PLATFORM_LDAP)))),
        },
    }
}

/// Whether a second call on its own output gives that output back: a
/// hashed password is sent unchanged.
pub proof fn lemma_hashed_password_unchanged(p: Seq<char>)
    requires
        is_hashed_password(p),
    ensures
        password_to_send(p) == p,
{
}

/// What reading `s` as a URL gives: its query as name and value pairs, in
/// order and percent-decoded, or `None` when it is not a URL.
pub uninterp spec fn url_query(s: Seq<char>) -> Option<Seq<(Seq<char>, Seq<char>)>>;

/// Relies on `reqwest::Url::parse` and `Url::query_pairs`: the decoded query
/// pairs of the URL, or `None` when the text does not parse as a URL.
#[verifier::external_body]
fn query_pairs_of(s: &str) -> (r: Option<Vec<(String, String)>>)
    ensures
        match r {
            Some(v) => url_query(s@) == Some(pairs_view(v@)),
            None => url_query(s@) is None,
        },
{
    reqwest::Url::parse(s).ok().map(
        |u| u.query_pairs().map(|(k, v)| (k.into_owned(), v.into_owned())).collect(),
    )
}

/// Whether the text reads as a URL.
pub fn is_url(s: &str) -> (r: bool)
    ensures
        r == url_query(s@) is Some,
{
    query_pairs_of(s).is_some()
}

/// The one-time-code seed that a login redirect carries: the value of its
/// first `secret` query parameter, if any. A redirect that is not a URL is
/// an error.
pub fn otp_seed_from_redirect(url: &str) -> (r: Result<Option<String>, Error>)
    ensures
        match url_query(url@) {
            None => r == Err::<Option<String>, Error>(Error::InvalidRedirectUrl),
            Some(q) => r matches Ok(o) && opt_view(o) == lookup(q, "secret"@),
        },
{
    match query_pairs_of(url) {
        None => Err(Error::InvalidRedirectUrl),
        Some(pairs) => {
            let mut i: usize = 0;
            let ghost pv = pairs_view(pairs@);
            assert(pv.subrange(0, pv.len() as int) =~= pv);
            while i < pairs.len()
                invariant
                    i <= pairs@.len(),
                    pv == pairs_view(pairs@),
                    url_query(url@) == Some(pv),
                    lookup(pv, "secret"@) == lookup(pv.subrange(i as int, pv.len() as int), "secret"@),
                decreases pairs@.len() - i,
            {
                assert(pv.subrange(i as int, pv.len() as int).drop_first() =~= pv.subrange(
                    i + 1,
                    pv.len() as int,
                ));
                assert(pv[i as int] == (pairs@[i as int].0@, pairs@[i as int].1@));
                assert(pv.subrange(i as int, pv.len() as int)[0] == pv[i as int]);
                if str_eq(pairs[i].0.as_str(), "secret") {
                    return Ok(Some(pairs[i].1.clone()));
                }
                i = i + 1;
            }
            Ok(None)
        },
    }
}

} // verus!
