//! The client's session state and the decisions taken on it.

use vstd::prelude::*;

use crate::api::ApiUrl;
use crate::auth::{
    check_ldap_password, check_ldap_result, choose_corplink_submethod, corplink_choice, is_url,
    opt_view,
    otp_seed_from_redirect, password_login_fields, password_to_send, platform_allowed,
    platform_allows, resolve_login_methods, resolves_to, url_query, CorplinkSubmethod,
    LoginMethod, PasswordPlatform,
};
use crate::codec::{
    b32_decode, base32_decoded, decimal, parse_u32, parsed_u32, pow10, push_decimal,
    to_zero_padded, zero_padded,
};
use crate::config::{Config, WgConf};
use crate::error::Error;
use crate::resp::{RespTpsLoginMethod, RespVpnInfo, RespWgInfo};
use crate::select::{filter_vpn, kept, parse_strategy, strategy_of, EndpointSelector};
use crate::state::State;
use crate::template::{lookup, pairs_view};
use crate::totp::{hotp_code, lemma_offset_counter, offset_slots, slots_of_offset, totp_at, totp_slot};

verus! {

/// The unix time in whole seconds of an HTTP date, if the text is one.
pub uninterp spec fn http_date_secs(s: Seq<char>) -> Option<u64>;

/// Relies on `httpdate::parse_http_date`: the time of an HTTP date in any of
/// its three forms, taken as whole seconds since the unix epoch; `None` when
/// the text is not an HTTP date.
#[verifier::external_body]
fn parse_http_date(s: &str) -> (r: Option<u64>)
    ensures
        r == http_date_secs(s@),
{
    httpdate::parse_http_date(s).ok().and_then(|t| t.duration_since(std::time::UNIX_EPOCH).ok()).map(
        |d| d.as_secs(),
    )
}

/// Server time minus local time in seconds; zero when the difference does
/// not fit in 32 bits.
pub open spec fn offset_between(server: u64, local: u64) -> i32 {
    if local < server {
        if server - local <= i32::MAX {
            (server - local) as i32
        } else {
            0
        }
    } else {
        if local - server <= i32::MAX {
            (server - local) as i32
        } else {
            0
        }
    }
}

/// The one-time code sent with a connection request: six digits, zero padded.
pub open spec fn otp_text(key: Seq<u8>, now: u64, offset_sec: i32) -> Seq<char> {
    zero_padded(totp_slot(key, now, slots_of_offset(offset_sec) as i32).code as nat, 6)
}

/// The code sent at unix time `now` with a clock offset of `offset_sec`
/// seconds is that of counter `floor(now / 30) + floor(offset_sec / 30)`.
pub proof fn lemma_otp_counter(key: Seq<u8>, now: u64, offset_sec: i32)
    requires
        now as int / 30 + offset_sec as int / 30 >= 0,
    ensures
        otp_text(key, now, offset_sec) == zero_padded(
            hotp_code(key, (now as int / 30 + offset_sec as int / 30) as u64, 6) as u32 as nat,
            6,
        ),
{
    lemma_offset_counter(now, offset_sec);
}

/// The tunnel parameters that a chosen endpoint and the server's answer give.
pub open spec fn wg_conf_from(
    w: WgConf,
    vpn: RespVpnInfo,
    info: RespWgInfo,
    public_key: Seq<char>,
    private_key: Seq<char>,
    mask: u32,
) -> bool {
    &&& w.address@ == info.ip@ + "/"@ + decimal(mask as nat)
    &&& w.address6@ == (if info.ipv6@.len() > 0 {
        info.ipv6@ + "/128"@
    } else {
        Seq::<char>::empty()
    })
    &&& w.peer_address@ == vpn.ip@ + ":"@ + decimal(vpn.vpn_port as nat)
    &&& w.mtu == info.setting.vpn_mtu
    &&& w.public_key@ == public_key
    &&& w.private_key@ == private_key
    &&& w.peer_key@ == info.public_key@
    &&& w.route@ == info.setting.vpn_route_split@ + match info.setting.v6_route_split {
        Some(v) => v@,
        None => Seq::<String>::empty(),
    }
    &&& w.dns@ == info.setting.vpn_dns@
    &&& w.protocol == (if vpn.protocol_mode == 1 {
        1i32
    } else {
        0i32
    })
}

/// The fields of a status report about a tunnel: its address, the local
/// public key, the split mode and the report type, `100` while connected and
/// `101` on disconnect.
pub open spec fn report_fields(conf: WgConf, disconnect: bool) -> Seq<(Seq<char>, Seq<char>)> {
    seq![
        ("ip"@, conf.address@),
        ("public_key"@, conf.public_key@),
        ("mode"@, "Split"@),
        ("type"@, if disconnect { "101"@ } else { "100"@ }),
    ]
}

/// The fields of a keep-alive report, or of a disconnect report.
pub fn status_report_fields(conf: &WgConf, disconnect: bool) -> (r: Vec<(String, String)>)
    ensures
        pairs_view(r@) == report_fields(*conf, disconnect),
{
    let mut v: Vec<(String, String)> = Vec::new();
    v.push((String::from_str("ip"), conf.address.clone()));
    v.push((String::from_str("public_key"), conf.public_key.clone()));
    v.push((String::from_str("mode"), String::from_str("Split")));
    let kind = if disconnect {
        String::from_str("101")
    } else {
        String::from_str("100")
    };
    v.push((String::from_str("type"), kind));
    assert(pairs_view(v@) =~= report_fields(*conf, disconnect));
    v
}

/// The session of one account: its configuration, the URLs of the backend
/// and the last measured clock offset to the server.
pub struct Client {
    pub conf: Config,
    pub api_url: ApiUrl,
    /// Server time minus local time, in seconds, from the latest answer that
    /// carried a readable date.
    pub date_offset_sec: i32,
}

impl Client {
    /// A session for `conf`, which must name its file, an interface and a
    /// server whose text is a URL.
    pub fn new(conf: Config) -> (r: Result<Client, Error>)
        ensures
            conf.conf_file is None ==> (r matches Err(Error::MissingConfig(f)) && f@
                == "config file"@),
            conf.conf_file is Some && conf.interface_name is None ==> (r matches Err(
                Error::MissingConfig(f),
            ) && f@ == "interface name"@),
            conf.conf_file is Some && conf.interface_name is Some && conf.server is None ==> (
            r matches Err(Error::MissingConfig(f)) && f@ == "server"@),
            conf.conf_file is Some && conf.interface_name is Some && conf.server is Some
                && url_query(conf.server->0@) is None ==> r == Err::<Client, Error>(
                Error::InvalidServerUrl,
            ),
            conf.conf_file is Some && conf.interface_name is Some && conf.server is Some
                && url_query(conf.server->0@) is Some ==> (r matches Ok(c) && c.conf == conf
                && c.api_url.wf() && c.api_url.server() == conf.server->0@ && c.date_offset_sec
                == 0),
    {
        if conf.conf_file.is_none() {
            return Err(Error::MissingConfig(String::from_str("config file")));
        }
        if conf.interface_name.is_none() {
            return Err(Error::MissingConfig(String::from_str("interface name")));
        }
        match &conf.server {
            Some(s) => {
                if !is_url(s.as_str()) {
                    return Err(Error::InvalidServerUrl);
                }
            },
            None => {},
        }
        let api_url = ApiUrl::new(&conf)?;
        Ok(Client { conf, api_url, date_offset_sec: 0 })
    }

    /// Whether no valid session is known: the state is unset or `Init`.
    pub fn need_login(&self) -> (r: bool)
        ensures
            r == (self.conf.state is None || self.conf.state == Some(State::Init)),
    {
        match self.conf.state {
            None => true,
            Some(State::Init) => true,
            Some(State::Login) => false,
        }
    }

    /// Sets the authentication state; the caller persists the configuration.
    pub fn change_state(&mut self, state: State)
        ensures
            final(self).conf.state == Some(state),
            final(self).conf.code == old(self).conf.code,
            final(self).date_offset_sec == old(self).date_offset_sec,
    {
        self.conf.state = Some(state);
    }

    /// The shared path for a server-signalled logout: the state goes back to
    /// `Init` and the logout error to surface is returned.
    pub fn handle_logout_err(&mut self, message: Option<String>) -> (r: Error)
        ensures
            final(self).conf.state == Some(State::Init),
            final(self).conf.code == old(self).conf.code,
            r == Error::Logout(message),
    {
        self.change_state(State::Init);
        Error::Logout(message)
    }

    /// Whether the configured platform restriction allows `platform`.
    pub fn is_platform_or_default(&self, platform: &str) -> (r: bool)
        ensures
            r == platform_allows(opt_view(self.conf.platform), platform@),
    {
        platform_allowed(&self.conf.platform, platform)
    }

    /// The server's ordered method names, each resolved to how it is carried
    /// out under the configured platform restriction.
    pub fn login_methods(&self, orders: &Vec<String>, tps: &Vec<RespTpsLoginMethod>) -> (r: Vec<
        LoginMethod,
    >)
        ensures
            r@.len() == orders@.len(),
            forall|k: int| 0 <= k < orders@.len() ==> resolves_to(#[trigger] r@[k], orders@[k]@, tps@, opt_view(self.conf.platform)),
    {
        resolve_login_methods(orders, tps, &self.conf.platform)
    }

    /// How to use the built-in method among the ways the server offers.
    pub fn corplink_submethod(&self, auth: &Vec<String>) -> (r: Option<CorplinkSubmethod>)
        ensures
            r == corplink_choice(auth@, opt_view(self.conf.password)),
    {
        choose_corplink_submethod(auth, &self.conf.password)
    }

    /// Whether the directory-service method can log in by password.
    pub fn check_ldap(&self, auth: &Vec<String>) -> (r: Result<(), Error>)
        ensures
            r == check_ldap_result(auth@, opt_view(self.conf.password)),
    {
        check_ldap_password(auth, &self.conf.password)
    }

    /// The password and platform marker that a password login sends.
    pub fn password_fields(&self, platform: PasswordPlatform) -> (r: Result<
        (String, Option<String>),
        Error,
    >)
        ensures
            match self.conf.password {
                None => r matches Err(Error::MissingConfig(f)) && f@ == "password"@,
                Some(p) => r matches Ok((sent, marker)) && match platform {
                    PasswordPlatform::Corplink => sent@ == password_to_send(p@) && marker is None,
                    PasswordPlatform::Ldap => sent@ == p@ && marker is Some,
                },
            },
    {
        password_login_fields(platform, &self.conf.password)
    }

    /// Takes the outcome of one login method. A failure or an empty redirect
    /// leaves everything as it was and returns `Ok(false)`: the next method
    /// is tried. A redirect makes the state `Login` and stores the seed that
    /// its `secret` parameter carries, if any, and returns `Ok(true)`; a
    /// redirect that is not a URL is an error.
    pub fn finish_login_attempt(&mut self, outcome: Result<String, Error>) -> (r: Result<bool, Error>)
        ensures
            match outcome {
                Err(_) => r == Ok::<bool, Error>(false) && *final(self) == *old(self),
                Ok(u) => if u@.len() == 0 {
                    r == Ok::<bool, Error>(false) && *final(self) == *old(self)
                } else {
                    &&& final(self).conf.state == Some(State::Login)
                    &&& final(self).date_offset_sec == old(self).date_offset_sec
                    &&& match url_query(u@) {
                        None => r == Err::<bool, Error>(Error::InvalidRedirectUrl)
                            && final(self).conf.code == old(self).conf.code,
                        Some(q) => r == Ok::<bool, Error>(true) && match lookup(q, "secret"@) {
                            Some(s) => final(self).conf.code matches Some(c) && c@ == s,
                            None => final(self).conf.code == old(self).conf.code,
                        },
                    }
                },
            },
    {
        match outcome {
            Err(_) => Ok(false),
            Ok(url) => {
                if url.unicode_len() == 0 {
                    return Ok(false);
                }
                self.change_state(State::Login);
                match otp_seed_from_redirect(url.as_str())? {
                    Some(seed) => {
                        self.conf.code = Some(seed);
                    },
                    None => {},
                }
                Ok(true)
            },
        }
    }

    /// Takes the `Date` header of an answer received at unix time `now`: when
    /// it reads as an HTTP date the clock offset becomes server time minus
    /// local time; otherwise the offset stays.
    pub fn update_time_offset(&mut self, date: &str, now: u64)
        ensures
            final(self).conf == old(self).conf,
            match http_date_secs(date@) {
                Some(t) => final(self).date_offset_sec == offset_between(t, now),
                None => final(self).date_offset_sec == old(self).date_offset_sec,
            },
    {
        match parse_http_date(date) {
            Some(t) => {
                let offset: i32 = if now < t {
                    let d = t - now;
                    if d <= 0x7fff_ffff {
                        d as i32
                    } else {
                        0
                    }
                } else {
                    let d = now - t;
                    if d <= 0x7fff_ffff {
                        -(d as i32)
                    } else {
                        0
                    }
                };
                self.date_offset_sec = offset;
            },
            None => {},
        }
    }

    /// The one-time code to send at unix time `now`, from the stored seed
    /// and the clock offset. `None` when no seed is stored; the caller then
    /// asks the user for a code.
    pub fn otp_at(&self, now: u64) -> (r: Result<Option<String>, Error>)
        ensures
            match self.conf.code {
                None => r == Ok::<Option<String>, Error>(None),
                Some(c) => if c@.len() == 0 {
                    r == Ok::<Option<String>, Error>(None)
                } else {
                    match base32_decoded(c@) {
                        None => r == Err::<Option<String>, Error>(Error::InvalidBase32),
                        Some(k) => r matches Ok(Some(s)) && s@ == otp_text(k, now, self.date_offset_sec),
                    }
                },
            },
    {
        match &self.conf.code {
            None => Ok(None),
            Some(c) => {
                if c.unicode_len() == 0 {
                    return Ok(None);
                }
                let key = b32_decode(c.as_str())?;
                let slot = totp_at(key.as_slice(), now, offset_slots(self.date_offset_sec));
                proof {
                    reveal_with_fuel(pow10, 7);
                }
                Ok(Some(to_zero_padded(slot.code as u64, 6)))
            },
        }
    }

    /// The candidates that are kept under the configured pinned name.
    pub fn filter_vpn(&self, vpns: Vec<RespVpnInfo>) -> (r: Vec<RespVpnInfo>)
        ensures
            r@ == kept(vpns@, opt_view(self.conf.vpn_server_name)),
    {
        filter_vpn(vpns, &self.conf.vpn_server_name)
    }

    /// A selector over `count` candidates with the configured strategy; an
    /// unknown strategy is an error.
    pub fn endpoint_selector(&self, count: usize) -> (r: Result<EndpointSelector, Error>)
        ensures
            match strategy_of(opt_view(self.conf.vpn_select_strategy)) {
                Some(s) => r matches Ok(sel) && sel.wf() && sel.spec_strategy() == s
                    && sel.spec_count() == count && sel.results().len() == 0,
                None => r == Err::<EndpointSelector, Error>(Error::UnsupportedStrategy),
            },
    {
        let s = parse_strategy(&self.conf.vpn_select_strategy)?;
        Ok(EndpointSelector::new(s, count))
    }

    /// The tunnel parameters for the chosen endpoint from the server's
    /// answer, which only a logged-in session may build. The configured keys
    /// are required; the address mask must be a number.
    pub fn build_wg_conf(&self, vpn: &RespVpnInfo, info: RespWgInfo) -> (r: Result<WgConf, Error>)
        requires
            self.conf.state == Some(State::Login),
        ensures
            self.conf.public_key is None ==> (r matches Err(Error::MissingConfig(f)) && f@
                == "public key"@),
            self.conf.public_key is Some && self.conf.private_key is None ==> (r matches Err(
                Error::MissingConfig(f),
            ) && f@ == "private key"@),
            self.conf.public_key is Some && self.conf.private_key is Some ==> match parsed_u32(
                info.ip_mask@,
            ) {
                None => r == Err::<WgConf, Error>(Error::InvalidIpMask),
                Some(mask) => r matches Ok(w) && wg_conf_from(
                    w,
                    *vpn,
                    info,
                    self.conf.public_key->0@,
                    self.conf.private_key->0@,
                    mask,
                ),
            },
    {
        let public_key = match &self.conf.public_key {
            Some(k) => k.clone(),
            None => {
                return Err(Error::MissingConfig(String::from_str("public key")));
            },
        };
        let private_key = match &self.conf.private_key {
            Some(k) => k.clone(),
            None => {
                return Err(Error::MissingConfig(String::from_str("private key")));
            },
        };
        let mask = match parse_u32(info.ip_mask.as_str()) {
            Some(m) => m,
            None => {
                return Err(Error::InvalidIpMask);
            },
        };
        let ghost info0 = info;
        let mut address = info.ip.clone();
        address.append("/");
        push_decimal(&mut address, mask as u64);
        let address6 = if info.ipv6.unicode_len() > 0 {
            let mut a = info.ipv6.clone();
            a.append("/128");
            a
        } else {
            String::new()
        };
        let mut peer_address = vpn.ip.clone();
        peer_address.append(":");
        push_decimal(&mut peer_address, vpn.vpn_port as u64);
        let RespWgInfo { ip: _, ipv6: _, ip_mask: _, public_key: peer_key, protocol_version: _, setting, mode: _ } = info;
        let mut route = setting.vpn_route_split;
        match setting.v6_route_split {
            Some(v6) => {
                let mut v6 = v6;
                route.append(&mut v6);
            },
            None => {},
        }
        let protocol: i32 = if vpn.protocol_mode == 1 {
            1
        } else {
            0
        };
        let w = WgConf {
            address,
            address6,
            peer_address,
            mtu: setting.vpn_mtu,
            public_key,
            private_key,
            peer_key,
            route,
            dns: setting.vpn_dns,
            protocol,
        };
        assert(w.route@ =~= info0.setting.vpn_route_split@ + match info0.setting.v6_route_split {
            Some(v) => v@,
            None => Seq::<String>::empty(),
        });
        Ok(w)
    }
}

} // verus!
