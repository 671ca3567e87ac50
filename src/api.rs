//! The backend's named endpoints and their URLs.

use vstd::prelude::*;

use crate::config::Config;
use crate::error::Error;
use crate::template::{pairs_view, rendered, Template};

verus! {

pub const URL_GET_COMPANY: &'static str = "https://corplink.volcengine.cn/api/match";

pub const URL_GET_LOGIN_METHOD: &'static str = "{{url}}/api/login/setting?os={{os}}&os_version={{version}}";

pub const URL_GET_TPS_LOGIN_METHOD: &'static str = "{{url}}/api/tpslogin/link?os={{os}}&os_version={{version}}";

pub const URL_GET_TPS_TOKEN_CHECK: &'static str = "{{url}}/api/tpslogin/token/check?os={{os}}&os_version={{version}}";

pub const URL_GET_CORPLINK_LOGIN_METHOD: &'static str = "{{url}}/api/lookup?os={{os}}&os_version={{version}}";

pub const URL_REQUEST_CODE: &'static str = "{{url}}/api/login/code/send?os={{os}}&os_version={{version}}";

pub const URL_VERIFY_CODE: &'static str = "{{url}}/api/login/code/verify?os={{os}}&os_version={{version}}";

pub const URL_LOGIN_PASSWORD: &'static str = "{{url}}/api/login?os={{os}}&os_version={{version}}";

pub const URL_LIST_VPN: &'static str = "{{url}}/api/vpn/list?os={{os}}&os_version={{version}}";

pub const URL_PING_VPN_HOST: &'static str = "{{url}}/vpn/ping?os={{os}}&os_version={{version}}";

pub const URL_FETCH_PEER_INFO: &'static str = "{{url}}/vpn/conn?os={{os}}&os_version={{version}}";

pub const URL_OPERATE_VPN: &'static str = "{{url}}/vpn/report?os={{os}}&os_version={{version}}";

pub const URL_OTP: &'static str = "{{url}}/api/v2/p/otp?os={{os}}&os_version={{version}}";

/// The operating system that the client reports.
pub const OS_NAME: &'static str = "Android";

/// The operating system version that the client reports.
pub const OS_VERSION: &'static str = "2";

/// The backend's endpoints. The first nine belong to the account server; the
/// last four to the endpoint host being used.
#[derive(Debug, Clone, Copy, PartialEq, Eq, Structural, Hash)]
pub enum ApiName {
    LoginMethod,
    TpsLoginMethod,
    TpsTokenCheck,
    CorplinkLoginMethod,
    RequestEmailCode,
    LoginPassword,
    LoginEmail,
    ListVPN,
    PingVPN,
    ConnectVPN,
    KeepAliveVPN,
    DisconnectVPN,
    OTP,
}

/// The template of an endpoint's URL.
pub open spec fn url_template(name: ApiName) -> Seq<char> {
    match name {
        ApiName::LoginMethod => URL_GET_LOGIN_METHOD@,
        ApiName::TpsLoginMethod => URL_GET_TPS_LOGIN_METHOD@,
        ApiName::TpsTokenCheck => URL_GET_TPS_TOKEN_CHECK@,
        ApiName::CorplinkLoginMethod => URL_GET_CORPLINK_LOGIN_METHOD@,
        ApiName::RequestEmailCode => URL_REQUEST_CODE@,
        ApiName::LoginPassword => URL_LOGIN_PASSWORD@,
        ApiName::LoginEmail => URL_VERIFY_CODE@,
        ApiName::ListVPN => URL_LIST_VPN@,
        ApiName::PingVPN => URL_PING_VPN_HOST@,
        ApiName::ConnectVPN => URL_FETCH_PEER_INFO@,
        ApiName::KeepAliveVPN => URL_OPERATE_VPN@,
        ApiName::DisconnectVPN => URL_OPERATE_VPN@,
        ApiName::OTP => URL_OTP@,
    }
}

/// The position of an endpoint in the template table.
pub open spec fn api_index(name: ApiName) -> int {
    match name {
        ApiName::LoginMethod => 0,
        ApiName::TpsLoginMethod => 1,
        ApiName::TpsTokenCheck => 2,
        ApiName::CorplinkLoginMethod => 3,
        ApiName::RequestEmailCode => 4,
        ApiName::LoginPassword => 5,
        ApiName::LoginEmail => 6,
        ApiName::ListVPN => 7,
        ApiName::PingVPN => 8,
        ApiName::ConnectVPN => 9,
        ApiName::KeepAliveVPN => 10,
        ApiName::DisconnectVPN => 11,
        ApiName::OTP => 12,
    }
}

/// The endpoints of the endpoint host; the others belong to the account
/// server.
pub open spec fn is_vpn_api(name: ApiName) -> bool {
    match name {
        ApiName::PingVPN | ApiName::ConnectVPN | ApiName::KeepAliveVPN
        | ApiName::DisconnectVPN => true,
        _ => false,
    }
}

fn index_of(name: ApiName) -> (r: usize)
    ensures
        r == api_index(name),
{
    match name {
        ApiName::LoginMethod => 0,
        ApiName::TpsLoginMethod => 1,
        ApiName::TpsTokenCheck => 2,
        ApiName::CorplinkLoginMethod => 3,
        ApiName::RequestEmailCode => 4,
        ApiName::LoginPassword => 5,
        ApiName::LoginEmail => 6,
        ApiName::ListVPN => 7,
        ApiName::PingVPN => 8,
        ApiName::ConnectVPN => 9,
        ApiName::KeepAliveVPN => 10,
        ApiName::DisconnectVPN => 11,
        ApiName::OTP => 12,
    }
}

/// The values filled into the account server's URLs.
#[derive(Debug, Clone)]
pub struct UserUrlParam {
    pub url: String,
    pub os: String,
    pub version: String,
}

/// The values filled into the endpoint host's URLs; `url` is the base URL of
/// the host being used.
#[derive(Debug, Clone)]
pub struct VpnUrlParam {
    pub url: String,
    pub os: String,
    pub version: String,
}

/// The named values of a URL template.
pub open spec fn url_params(url: Seq<char>, os: Seq<char>, version: Seq<char>) -> Seq<
    (Seq<char>, Seq<char>),
> {
    seq![("url"@, url), ("os"@, os), ("version"@, version)]
}

fn params(url: &String, os: &String, version: &String) -> (r: Vec<(String, String)>)
    ensures
        pairs_view(r@) == url_params(url@, os@, version@),
{
    let mut v: Vec<(String, String)> = Vec::new();
    v.push((String::from_str("url"), url.clone()));
    v.push((String::from_str("os"), os.clone()));
    v.push((String::from_str("version"), version.clone()));
    assert(pairs_view(v@) =~= url_params(url@, os@, version@));
    v
}

/// The URLs of the backend's endpoints.
#[derive(Debug, Clone)]
pub struct ApiUrl {
    user_param: UserUrlParam,
    pub vpn_param: VpnUrlParam,
    api_template: Vec<Template>,
}

impl ApiUrl {
    /// Points the endpoint host's URLs at `url`, the base URL of the host
    /// being probed or used.
    pub fn set_vpn_url(&mut self, url: String)
        ensures
            final(self).wf() == old(self).wf(),
            final(self).server() == old(self).server(),
            old(self).wf() ==> final(self).vpn_params() == url_params(url@, OS_NAME@, OS_VERSION@),
    {
        self.vpn_param.url = url;
    }

    /// The account server's base URL.
    pub closed spec fn server(&self) -> Seq<char> {
        self.user_param.url@
    }

    /// The values filled into the endpoint host's URLs.
    pub closed spec fn vpn_params(&self) -> Seq<(Seq<char>, Seq<char>)> {
        url_params(self.vpn_param.url@, self.vpn_param.os@, self.vpn_param.version@)
    }

    pub closed spec fn wf(&self) -> bool {
        &&& self.api_template@.len() == 13
        &&& forall|n: ApiName| #[trigger] self.api_template@[api_index(n)].wf()
            && self.api_template@[api_index(n)].text() == url_template(n)
        &&& self.user_param.os@ == OS_NAME@
        &&& self.user_param.version@ == OS_VERSION@
        &&& self.vpn_param.os@ == OS_NAME@
        &&& self.vpn_param.version@ == OS_VERSION@
    }

    /// The URL table for the configured server; the server must be set.
    pub fn new(conf: &Config) -> (r: Result<ApiUrl, Error>)
        ensures
            match conf.server {
                Some(s) => r matches Ok(a) && a.wf() && a.server() == s@ && a.vpn_params()
                    == url_params(Seq::<char>::empty(), OS_NAME@, OS_VERSION@),
                None => r matches Err(Error::MissingConfig(f)) && f@ == "server"@,
            },
    {
        let url = match &conf.server {
            Some(s) => s.clone(),
            None => {
                return Err(Error::MissingConfig(String::from_str("server")));
            },
        };
        let mut t: Vec<Template> = Vec::new();
        t.push(Template::new(URL_GET_LOGIN_METHOD));
        t.push(Template::new(URL_GET_TPS_LOGIN_METHOD));
        t.push(Template::new(URL_GET_TPS_TOKEN_CHECK));
        t.push(Template::new(URL_GET_CORPLINK_LOGIN_METHOD));
        t.push(Template::new(URL_REQUEST_CODE));
        t.push(Template::new(URL_LOGIN_PASSWORD));
        t.push(Template::new(URL_VERIFY_CODE));
        t.push(Template::new(URL_LIST_VPN));
        t.push(Template::new(URL_PING_VPN_HOST));
        t.push(Template::new(URL_FETCH_PEER_INFO));
        t.push(Template::new(URL_OPERATE_VPN));
        t.push(Template::new(URL_OPERATE_VPN));
        t.push(Template::new(URL_OTP));
        let a = ApiUrl {
            user_param: UserUrlParam {
                url,
                os: String::from_str(OS_NAME),
                version: String::from_str(OS_VERSION),
            },
            vpn_param: VpnUrlParam {
                url: String::new(),
                os: String::from_str(OS_NAME),
                version: String::from_str(OS_VERSION),
            },
            api_template: t,
        };
        assert forall|n: ApiName| #[trigger] a.api_template@[api_index(n)].wf()
            && a.api_template@[api_index(n)].text() == url_template(n) by {
            match n {
                _ => {},
            }
        }
        Ok(a)
    }

    /// The URL of an endpoint: its template with the account server's values,
    /// or with the endpoint host's values for the endpoint host's calls.
    pub fn get_api_url(&self, name: &ApiName) -> (r: String)
        requires
            self.wf(),
        ensures
            is_vpn_api(*name) ==> r@ == rendered(url_template(*name), self.vpn_params()),
            !is_vpn_api(*name) ==> r@ == rendered(
                url_template(*name),
                url_params(self.server(), OS_NAME@, OS_VERSION@),
            ),
    {
        let t = &self.api_template[index_of(*name)];
        assert(t.wf());
        match name {
            ApiName::PingVPN | ApiName::ConnectVPN | ApiName::KeepAliveVPN
            | ApiName::DisconnectVPN => {
                let p = params(&self.vpn_param.url, &self.vpn_param.os, &self.vpn_param.version);
                t.render(&p)
            },
            _ => {
                let p = params(&self.user_param.url, &self.user_param.os, &self.user_param.version);
                t.render(&p)
            },
        }
    }
}

} // verus!
