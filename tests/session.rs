use corplink::api::{ApiName, ApiUrl};
use corplink::auth::{
    check_ldap_password, choose_corplink_submethod, hash_password, otp_seed_from_redirect,
    password_login_fields, resolve_login_methods, tps_supported, CorplinkSubmethod, LoginMethod,
    PasswordPlatform,
};
use corplink::client::{status_report_fields, Client};
use corplink::config::Config;
use corplink::lifecycle::{classify_error, ConnectOutcome, Orchestrator, RunStep};
use corplink::resp::{Resp, RespTpsLoginMethod, RespVpnInfo, RespWgExtraInfo, RespWgInfo};
use corplink::select::{parse_strategy, EndpointSelector, Strategy};
use corplink::state::State;
use corplink::template::Template;
use corplink::Error;

fn config() -> Config {
    Config {
        company_name: "acme".to_string(),
        username: "alice".to_string(),
        password: None,
        platform: None,
        code: None,
        device_name: None,
        device_id: None,
        public_key: Some("pub".to_string()),
        private_key: Some("priv".to_string()),
        server: Some("https://vpn.example.com".to_string()),
        interface_name: Some("corplink".to_string()),
        debug_wg: None,
        conf_file: Some("config.json".to_string()),
        state: None,
        vpn_server_name: None,
        vpn_select_strategy: None,
        use_vpn_dns: None,
    }
}

fn strings(v: &[&str]) -> Vec<String> {
    v.iter().map(|s| s.to_string()).collect()
}

fn vpn(name: &str, mode: i32) -> RespVpnInfo {
    RespVpnInfo {
        api_port: 443,
        vpn_port: 51820,
        ip: "198.51.100.7".to_string(),
        protocol_mode: mode,
        name: name.to_string(),
        en_name: name.to_string(),
        icon: String::new(),
        id: 1,
        timeout: 0,
    }
}

fn wg_info(mask: &str, ipv6: &str, v6_routes: Option<Vec<String>>) -> RespWgInfo {
    RespWgInfo {
        ip: "10.8.0.2".to_string(),
        ipv6: ipv6.to_string(),
        ip_mask: mask.to_string(),
        public_key: "peerkey".to_string(),
        protocol_version: None,
        setting: RespWgExtraInfo {
            vpn_mtu: 1380,
            vpn_dns: "10.8.0.1".to_string(),
            vpn_dns_backup: String::new(),
            vpn_dns_domain_split: vec![],
            vpn_route_full: vec![],
            vpn_route_split: strings(&["10.0.0.0/8"]),
            v6_route_split: v6_routes,
        },
        mode: 0,
    }
}

#[test]
fn latency_strategy_picks_lowest_succeeding_probe() {
    let mut sel = EndpointSelector::new(Strategy::Latency, 3);
    let probes = [Some(50u64), None, Some(80u64)];
    let mut probed = vec![];
    while let Some(i) = sel.next_probe() {
        probed.push(i);
        sel.record(probes[i]);
    }
    assert_eq!(probed, vec![0, 1, 2]);
    assert_eq!(sel.selected(), Some(0));
}

#[test]
fn latency_strategy_keeps_first_on_ties_and_fails_without_success() {
    let mut sel = EndpointSelector::new(Strategy::Latency, 3);
    for l in [None, Some(30u64), Some(30u64)] {
        assert!(sel.next_probe().is_some());
        sel.record(l);
    }
    assert_eq!(sel.next_probe(), None);
    assert_eq!(sel.selected(), Some(1));

    let mut none = EndpointSelector::new(Strategy::Latency, 2);
    none.record(None);
    none.record(None);
    assert_eq!(none.selected(), None);
}

#[test]
fn default_strategy_stops_at_first_success() {
    let mut sel = EndpointSelector::new(Strategy::FirstAvailable, 3);
    let probes = [Some(50u64), None, Some(80u64)];
    let mut probed = vec![];
    while let Some(i) = sel.next_probe() {
        probed.push(i);
        sel.record(probes[i]);
    }
    assert_eq!(probed, vec![0]);
    assert_eq!(sel.selected(), Some(0));

    let mut later = EndpointSelector::new(Strategy::FirstAvailable, 3);
    let probes = [None, Some(20u64), Some(10u64)];
    let mut probed = vec![];
    while let Some(i) = later.next_probe() {
        probed.push(i);
        later.record(probes[i]);
    }
    assert_eq!(probed, vec![0, 1]);
    assert_eq!(later.selected(), Some(1));
}

#[test]
fn strategy_names() {
    assert_eq!(parse_strategy(&None), Ok(Strategy::FirstAvailable));
    assert_eq!(parse_strategy(&Some("default".to_string())), Ok(Strategy::FirstAvailable));
    assert_eq!(parse_strategy(&Some("latency".to_string())), Ok(Strategy::Latency));
    assert_eq!(parse_strategy(&Some("fastest".to_string())), Err(Error::UnsupportedStrategy));
}

#[test]
fn candidates_are_filtered_by_name_and_mode() {
    let mut conf = config();
    conf.vpn_server_name = Some("b".to_string());
    let client = Client::new(conf).unwrap();
    let kept = client.filter_vpn(vec![vpn("a", 2), vpn("b", 3), vpn("b", 1), vpn("b", 2)]);
    assert_eq!(kept.len(), 2);
    assert_eq!(kept[0].protocol_mode, 1);
    assert_eq!(kept[1].protocol_mode, 2);

    let client = Client::new(config()).unwrap();
    let kept = client.filter_vpn(vec![vpn("a", 2), vpn("b", 0), vpn("c", 1)]);
    assert_eq!(kept.iter().map(|v| v.en_name.clone()).collect::<Vec<_>>(), strings(&["a", "c"]));
}

#[test]
fn two_logouts_allow_exactly_one_relogin() {
    let mut o = Orchestrator::new();
    assert_eq!(o.before_connect(true), RunStep::Login);
    assert_eq!(o.after_connect(ConnectOutcome::Logout), RunStep::Login);
    assert_eq!(o.before_connect(true), RunStep::Login);
    assert_eq!(o.after_connect(ConnectOutcome::Logout), RunStep::Fatal);
}

#[test]
fn lifecycle_steps() {
    let mut o = Orchestrator::new();
    assert_eq!(o.before_connect(false), RunStep::Connect);
    assert_eq!(o.after_connect(ConnectOutcome::Connected), RunStep::StartTunnel);
    assert_eq!(o.after_connect(ConnectOutcome::Failed), RunStep::Fatal);
    assert_eq!(classify_error(&Error::Logout(None)), ConnectOutcome::Logout);
    assert_eq!(classify_error(&Error::NoVpnAvailable), ConnectOutcome::Failed);
}

#[test]
fn logout_resets_state() {
    let mut conf = config();
    conf.state = Some(State::Login);
    let mut client = Client::new(conf).unwrap();
    assert!(!client.need_login());
    let e = client.handle_logout_err(Some("bye".to_string()));
    assert_eq!(e, Error::Logout(Some("bye".to_string())));
    assert_eq!(client.conf.state, Some(State::Init));
    assert!(client.need_login());
    assert_eq!(State::Init.to_string(), "Init");
    assert_eq!(State::Login.to_string(), "Login");
}

#[test]
fn hashed_password_is_sent_unchanged() {
    let hashed = "5e884898da28047151d0e56f8dc6292773603d0d6aabbdd62a11ef721d1542d8";
    assert_eq!(hash_password(hashed), hashed);
    assert_eq!(hash_password("password"), hashed);
    assert_eq!(hash_password(&hash_password("password")), hashed);
    // Sixty-four characters that are not all hexadecimal are hashed.
    let not_hex = "g".repeat(64);
    assert_ne!(hash_password(&not_hex), not_hex);
    assert_eq!(hash_password(&not_hex).len(), 64);
}

#[test]
fn password_fields_per_platform() {
    let pw = Some("password".to_string());
    let (sent, marker) = password_login_fields(PasswordPlatform::Corplink, &pw).unwrap();
    assert_eq!(sent, "5e884898da28047151d0e56f8dc6292773603d0d6aabbdd62a11ef721d1542d8");
    assert_eq!(marker, None);
    let (sent, marker) = password_login_fields(PasswordPlatform::Ldap, &pw).unwrap();
    assert_eq!(sent, "password");
    assert_eq!(marker, Some("ldap".to_string()));
    assert_eq!(
        password_login_fields(PasswordPlatform::Ldap, &None),
        Err(Error::MissingConfig("password".to_string()))
    );
}

#[test]
fn login_methods_resolve_once() {
    let tps = vec![
        RespTpsLoginMethod { alias: "lark".to_string(), login_url: "u1".to_string(), token: "t1".to_string() },
        RespTpsLoginMethod { alias: "lark".to_string(), login_url: "u2".to_string(), token: "t2".to_string() },
    ];
    let orders = strings(&["lark", "feilian", "ldap", "weixin"]);
    let m = resolve_login_methods(&orders, &tps, &None);
    assert_eq!(m.len(), 4);
    match &m[0] {
        LoginMethod::ThirdParty(d) => {
            assert_eq!(d.login_url, "u2");
            assert_eq!(d.token, "t2");
        },
        other => panic!("unexpected {:?}", other),
    }
    assert!(matches!(m[1], LoginMethod::Corplink));
    assert!(matches!(m[2], LoginMethod::Ldap));
    assert!(matches!(&m[3], LoginMethod::Unsupported(n) if n == "weixin"));

    let only_ldap = resolve_login_methods(&orders, &tps, &Some("ldap".to_string()));
    assert!(matches!(&only_ldap[0], LoginMethod::Unsupported(n) if n == "lark"));
    assert!(matches!(&only_ldap[1], LoginMethod::Unsupported(n) if n == "feilian"));
    assert!(matches!(only_ldap[2], LoginMethod::Ldap));

    let any = resolve_login_methods(&orders, &tps, &Some(String::new()));
    assert!(matches!(any[1], LoginMethod::Corplink));
    assert!(tps_supported("lark"));
    assert!(tps_supported("OIDC"));
    assert!(!tps_supported("dingtalk"));
}

#[test]
fn corplink_submethod_prefers_password_when_configured() {
    let auth = strings(&["password", "email"]);
    assert_eq!(choose_corplink_submethod(&auth, &Some("pw".to_string())), Some(CorplinkSubmethod::Password));
    assert_eq!(choose_corplink_submethod(&auth, &Some(String::new())), Some(CorplinkSubmethod::Email));
    assert_eq!(choose_corplink_submethod(&auth, &None), Some(CorplinkSubmethod::Email));
    assert_eq!(choose_corplink_submethod(&strings(&["sms"]), &None), None);
    let email_first = strings(&["email", "password"]);
    assert_eq!(choose_corplink_submethod(&email_first, &Some("pw".to_string())), Some(CorplinkSubmethod::Password));
    assert_eq!(choose_corplink_submethod(&email_first, &None), Some(CorplinkSubmethod::Email));
    assert_eq!(choose_corplink_submethod(&strings(&["password"]), &None), None);
}

#[test]
fn ldap_needs_offered_password() {
    let auth = strings(&["email", "password"]);
    assert_eq!(check_ldap_password(&auth, &Some("pw".to_string())), Ok(()));
    assert_eq!(check_ldap_password(&auth, &Some(String::new())), Err(Error::NoPassword));
    assert_eq!(check_ldap_password(&auth, &None), Err(Error::LoginMethodFailed));
    assert_eq!(check_ldap_password(&strings(&["email"]), &Some("pw".to_string())), Err(Error::LoginMethodFailed));
}

#[test]
fn redirect_secret_becomes_seed() {
    assert_eq!(
        otp_seed_from_redirect("otpauth://totp/x?issuer=a&secret=ABCD&secret=EFGH").unwrap(),
        Some("ABCD".to_string())
    );
    assert_eq!(otp_seed_from_redirect("https://example.com/cb?x=1").unwrap(), None);
    assert_eq!(otp_seed_from_redirect("not a url"), Err(Error::InvalidRedirectUrl));

    let mut client = Client::new(config()).unwrap();
    assert_eq!(client.finish_login_attempt(Err(Error::NoPassword)), Ok(false));
    assert_eq!(client.finish_login_attempt(Ok(String::new())), Ok(false));
    assert_eq!(client.conf.state, None);
    assert_eq!(client.finish_login_attempt(Ok("https://h/p?secret=GEZDGNBV".to_string())), Ok(true));
    assert_eq!(client.conf.state, Some(State::Login));
    assert_eq!(client.conf.code, Some("GEZDGNBV".to_string()));

    let mut soft = Client::new(config()).unwrap();
    assert_eq!(soft.finish_login_attempt(Ok("https://h/p".to_string())), Ok(true));
    assert_eq!(soft.conf.state, Some(State::Login));
    assert_eq!(soft.conf.code, None);
}

#[test]
fn clock_offset_from_date_header() {
    let mut client = Client::new(config()).unwrap();
    // Sun, 06 Nov 1994 08:49:37 GMT is unix time 784111777.
    client.update_time_offset("Sun, 06 Nov 1994 08:49:37 GMT", 784_111_700);
    assert_eq!(client.date_offset_sec, 77);
    client.update_time_offset("Sun, 06 Nov 1994 08:49:37 GMT", 784_111_800);
    assert_eq!(client.date_offset_sec, -23);
    client.update_time_offset("yesterday", 0);
    assert_eq!(client.date_offset_sec, -23);
}

#[test]
fn otp_uses_seed_and_offset() {
    let mut conf = config();
    conf.code = Some("GEZDGNBVGY3TQOJQGEZDGNBVGY3TQOJQ".to_string());
    let mut client = Client::new(conf).unwrap();
    assert_eq!(client.otp_at(59).unwrap(), Some("287082".to_string()));
    client.date_offset_sec = 65;
    assert_eq!(client.otp_at(1_700_000_000).unwrap(), Some("136087".to_string()));
    client.conf.code = Some(String::new());
    assert_eq!(client.otp_at(59).unwrap(), None);
    client.conf.code = Some("1".to_string());
    assert_eq!(client.otp_at(59), Err(Error::InvalidBase32));
    client.conf.code = None;
    assert_eq!(client.otp_at(59).unwrap(), None);
}

#[test]
fn tunnel_parameters_from_server_answer() {
    let mut conf = config();
    conf.state = Some(State::Login);
    let client = Client::new(conf).unwrap();
    let v = vpn("a", 1);
    let w = client.build_wg_conf(&v, wg_info("24", "fd00::2", Some(strings(&["fd00::/64"])))).unwrap();
    assert_eq!(w.address, "10.8.0.2/24");
    assert_eq!(w.address6, "fd00::2/128");
    assert_eq!(w.peer_address, "198.51.100.7:51820");
    assert_eq!(w.mtu, 1380);
    assert_eq!(w.public_key, "pub");
    assert_eq!(w.private_key, "priv");
    assert_eq!(w.peer_key, "peerkey");
    assert_eq!(w.route, strings(&["10.0.0.0/8", "fd00::/64"]));
    assert_eq!(w.dns, "10.8.0.1");
    assert_eq!(w.protocol, 1);

    let w = client.build_wg_conf(&vpn("a", 2), wg_info("+032", "", None)).unwrap();
    assert_eq!(w.address, "10.8.0.2/32");
    assert_eq!(w.address6, "");
    assert_eq!(w.protocol, 0);
    assert_eq!(w.route, strings(&["10.0.0.0/8"]));

    assert_eq!(client.build_wg_conf(&v, wg_info("x", "", None)).unwrap_err(), Error::InvalidIpMask);
    let mut conf = config();
    conf.private_key = None;
    conf.state = Some(State::Login);
    let c = Client::new(conf).unwrap();
    assert_eq!(
        c.build_wg_conf(&v, wg_info("24", "", None)).unwrap_err(),
        Error::MissingConfig("private key".to_string())
    );
}

#[test]
fn client_needs_interface_and_server() {
    let mut conf = config();
    conf.interface_name = None;
    assert_eq!(Client::new(conf).err(), Some(Error::MissingConfig("interface name".to_string())));
    let mut conf = config();
    conf.server = None;
    assert_eq!(Client::new(conf).err(), Some(Error::MissingConfig("server".to_string())));
    let mut conf = config();
    conf.conf_file = None;
    assert_eq!(Client::new(conf).err(), Some(Error::MissingConfig("config file".to_string())));
    let mut conf = config();
    conf.server = Some("not a url".to_string());
    assert_eq!(Client::new(conf).err(), Some(Error::InvalidServerUrl));
}

#[test]
fn endpoint_selector_from_config() {
    let mut conf = config();
    conf.vpn_select_strategy = Some("bogus".to_string());
    let client = Client::new(conf).unwrap();
    assert_eq!(client.endpoint_selector(2).err(), Some(Error::UnsupportedStrategy));
    let client = Client::new(config()).unwrap();
    let sel = client.endpoint_selector(2).unwrap();
    assert_eq!(sel.next_probe(), Some(0));
}

#[test]
fn platform_restriction() {
    let mut conf = config();
    conf.platform = Some("lark".to_string());
    let client = Client::new(conf).unwrap();
    assert!(client.is_platform_or_default("lark"));
    assert!(!client.is_platform_or_default("feilian"));
    let client = Client::new(config()).unwrap();
    assert!(client.is_platform_or_default("feilian"));
}

#[test]
fn business_codes() {
    let ok: Resp<u32> = Resp { code: 0, message: None, data: Some(7), action: None };
    assert_eq!(ok.into_data(), Ok(7));
    let empty: Resp<u32> = Resp { code: 0, message: None, data: None, action: None };
    assert_eq!(empty.into_data(), Err(Error::MissingData));
    let logout: Resp<u32> = Resp { code: 101, message: Some("x".to_string()), data: Some(1), action: None };
    assert_eq!(logout.into_data(), Err(Error::Logout(Some("x".to_string()))));
    let failed: Resp<u32> = Resp { code: 5, message: None, data: None, action: None };
    assert_eq!(failed.into_data(), Err(Error::Business { code: 5, message: None }));
}

#[test]
fn urls_are_rendered_from_templates() {
    let mut api = ApiUrl::new(&config()).unwrap();
    assert_eq!(
        api.get_api_url(&ApiName::LoginMethod),
        "https://vpn.example.com/api/login/setting?os=Android&os_version=2"
    );
    assert_eq!(
        api.get_api_url(&ApiName::ListVPN),
        "https://vpn.example.com/api/vpn/list?os=Android&os_version=2"
    );
    api.set_vpn_url("https://198.51.100.7:443".to_string());
    assert_eq!(
        api.get_api_url(&ApiName::PingVPN),
        "https://198.51.100.7:443/vpn/ping?os=Android&os_version=2"
    );
    assert_eq!(
        api.get_api_url(&ApiName::DisconnectVPN),
        "https://198.51.100.7:443/vpn/report?os=Android&os_version=2"
    );
    let mut conf = config();
    conf.server = None;
    assert!(ApiUrl::new(&conf).is_err());
}

#[test]
fn template_placeholders() {
    let t = Template::new("Hi, my name is {{name}} and I'm a {{lang}} developer.");
    let vals = vec![("name".to_string(), "Michael".to_string()), ("lang".to_string(), "Rust".to_string())];
    assert_eq!(t.render(&vals), "Hi, my name is Michael and I'm a Rust developer.");
    let vals = vec![("name".to_string(), "Vader".to_string())];
    assert_eq!(t.render_named(&vals), "Hi, my name is Vader and I'm a {{lang}} developer.");
    assert_eq!(Template::new("no args").render(&vec![]), "no args");
    assert_eq!(Template::new("{{{a}}x{{b}").render(&vec![("{a".to_string(), "1".to_string())]), "1x{{b}");
    assert_eq!(Template::new("{{a}b}}").render(&vec![("a".to_string(), "1".to_string())]), "{{a}b}}");
}

#[test]
fn status_report_bodies() {
    let conf = corplink::config::WgConf {
        address: "10.8.0.2/24".to_string(),
        address6: String::new(),
        peer_address: "198.51.100.7:51820".to_string(),
        mtu: 1380,
        public_key: "pk".to_string(),
        private_key: "sk".to_string(),
        peer_key: "peer".to_string(),
        route: vec![],
        dns: String::new(),
        protocol: 0,
    };
    let pairs = |v: Vec<(String, String)>| v;
    assert_eq!(
        pairs(status_report_fields(&conf, false)),
        vec![
            ("ip".to_string(), "10.8.0.2/24".to_string()),
            ("public_key".to_string(), "pk".to_string()),
            ("mode".to_string(), "Split".to_string()),
            ("type".to_string(), "100".to_string()),
        ]
    );
    assert_eq!(status_report_fields(&conf, true)[3].1, "101");
}

#[test]
fn clock_offset_too_large_for_32_bits_is_zero() {
    let mut client = Client::new(config()).unwrap();
    client.date_offset_sec = 5;
    client.update_time_offset("Sun, 06 Nov 1994 08:49:37 GMT", 784_111_777 + (1u64 << 32));
    assert_eq!(client.date_offset_sec, 0);
}
