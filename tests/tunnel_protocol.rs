use corplink::config::WgConf;
use corplink::wg::{
    check_config_response, check_start_code, config_request, contains_str, handshake_timed_out,
    last_handshake, route_with_prefix, wg_log_level, UAPIClient, LOG_LEVEL_ERROR,
    LOG_LEVEL_VERBOSE,
};
use corplink::{b64_decode_to_hex, Error};

fn sample_conf(route: Vec<&str>, address6: &str) -> WgConf {
    WgConf {
        address: "10.1.2.3/24".to_string(),
        address6: address6.to_string(),
        peer_address: "203.0.113.5:51820".to_string(),
        mtu: 1400,
        public_key: "AQID".to_string(),
        private_key: "AAEC/w==".to_string(),
        peer_key: "AQID".to_string(),
        route: route.into_iter().map(|r| r.to_string()).collect(),
        dns: "10.0.0.53".to_string(),
        protocol: 0,
    }
}

#[test]
fn bare_v4_route_gets_32_bit_mask() {
    assert_eq!(route_with_prefix("10.0.0.0"), "10.0.0.0/32");
}

#[test]
fn bare_v6_route_gets_128_bit_mask() {
    assert_eq!(route_with_prefix("fd00::1"), "fd00::1/128");
}

#[test]
fn route_with_mask_passes_through() {
    assert_eq!(route_with_prefix("10.0.0.0/24"), "10.0.0.0/24");
    assert_eq!(route_with_prefix("fd00::/64"), "fd00::/64");
}

#[test]
fn route_mask_defaults_apply_to_both_line_kinds() {
    let msg = config_request(&sample_conf(vec!["10.0.0.0", "fd00::1"], "")).unwrap();
    assert!(msg.contains("allowed_ip=10.0.0.0/32\n"));
    assert!(msg.contains("route=10.0.0.0/32\n"));
    assert!(msg.contains("allowed_ip=fd00::1/128\n"));
    assert!(msg.contains("route=fd00::1/128\n"));
}

#[test]
fn configure_message_has_exact_line_order() {
    let msg = config_request(&sample_conf(vec!["10.0.0.0", "172.16.0.0/12"], "fd00::2/128")).unwrap();
    let expected = "set=1\n\
private_key=000102ff\n\
replace_peers=true\n\
public_key=010203\n\
replace_allowed_ips=true\n\
endpoint=203.0.113.5:51820\n\
persistent_keepalive_interval=10\n\
allowed_ip=10.0.0.0/32\n\
allowed_ip=172.16.0.0/12\n\
address=10.1.2.3/24\n\
address=fd00::2/128\n\
mtu=1400\n\
up=true\n\
route=10.0.0.0/32\n\
route=172.16.0.0/12\n\
\n";
    assert_eq!(msg, expected);
    assert!(msg.ends_with("\n\n"));
    assert!(!msg.ends_with("\n\n\n"));
}

#[test]
fn configure_message_without_v6_or_routes() {
    let msg = config_request(&sample_conf(vec![], "")).unwrap();
    let expected = "set=1\nprivate_key=000102ff\nreplace_peers=true\npublic_key=010203\n\
replace_allowed_ips=true\nendpoint=203.0.113.5:51820\npersistent_keepalive_interval=10\n\
address=10.1.2.3/24\nmtu=1400\nup=true\n\n";
    assert_eq!(msg, expected);
}

#[test]
fn configure_rejects_key_that_is_not_base64() {
    let mut conf = sample_conf(vec![], "");
    conf.peer_key = "***".to_string();
    assert_eq!(config_request(&conf), Err(Error::InvalidBase64));
}

#[test]
fn key_is_sent_in_hex() {
    assert_eq!(b64_decode_to_hex("AAEC/w==").unwrap(), "000102ff");
    assert_eq!(
        b64_decode_to_hex("hSDwCYkwp1R0i33ctD73Wg2/Og0mOBr066SpjqqbTmo=").unwrap(),
        "8520f0098930a754748b7ddcb43ef75a0dbf3a0d26381af4eba4a98eaa9b4e6a"
    );
    assert_eq!(b64_decode_to_hex("@@"), Err(Error::InvalidBase64));
}

#[test]
fn engine_must_answer_errno_zero() {
    assert_eq!(check_config_response("errno=0\n\n"), Ok(()));
    assert_eq!(check_config_response("foo=1\nerrno=0\n\n"), Ok(()));
    assert_eq!(
        check_config_response("errno=1\n\n"),
        Err(Error::UnexpectedUapiResponse("errno=1\n\n".to_string()))
    );
    assert!(check_config_response("").is_err());
}

#[test]
fn substring_search() {
    assert!(contains_str("abcabd", "abd"));
    assert!(contains_str("abc", ""));
    assert!(!contains_str("ab", "abc"));
    assert!(!contains_str("aXbc", "abc"));
}

#[test]
fn handshake_time_is_read_from_engine_answer() {
    let resp = "private_key=00\nlast_handshake_time_sec=1700000000\nlast_handshake_time_nsec=5\nerrno=0\n\n";
    assert_eq!(last_handshake(resp), Some(1_700_000_000));
    assert_eq!(last_handshake("last_handshake_time_sec=42 \r\n"), Some(42));
    assert_eq!(last_handshake("last_handshake_time_sec=42\u{a0}\u{3000}\n"), Some(42));
    assert_eq!(last_handshake("last_handshake_time_sec=a=7\n"), Some(7));
    assert_eq!(last_handshake("errno=0\n\nlast_handshake_time_sec=42\n"), None);
    assert_eq!(last_handshake("last_handshake_time_sec=abc\n"), None);
    assert_eq!(last_handshake(""), None);
}

#[test]
fn stale_handshake_marks_tunnel_dead() {
    let uapi = UAPIClient { name: "corplink".to_string() };
    assert_eq!(uapi.health_request(), "get=1\n\n");
    let resp = "last_handshake_time_sec=1000\nerrno=0\n\n";
    assert!(!uapi.check_wg_connection(resp, 1300));
    assert!(uapi.check_wg_connection(resp, 1301));
    assert!(!uapi.check_wg_connection("last_handshake_time_sec=0\n\n", 1_000_000));
    assert!(!uapi.check_wg_connection("errno=0\n\n", 1_000_000));
    assert!(handshake_timed_out(1, 302));
    assert!(!handshake_timed_out(0, 302));
    assert!(handshake_timed_out(-9_000_000_000_000_000, 0));
}

#[test]
fn engine_start_code_and_log_level() {
    assert_eq!(check_start_code(0), Ok(()));
    assert_eq!(check_start_code(3), Err(Error::EngineStart(3)));
    assert_eq!(wg_log_level(true), LOG_LEVEL_VERBOSE);
    assert_eq!(wg_log_level(false), LOG_LEVEL_ERROR);
}
