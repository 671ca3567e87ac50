use corplink::config::Config;
use corplink::dns::DNSManager;
use corplink::{
    b64_decode, device_id, gen_public_key_from_private, gen_wg_keypair, parse_i64, parse_u32,
    to_decimal, to_hex, to_zero_padded, Error,
};

#[test]
fn public_key_from_rfc7748_private_key() {
    let private = "dwdtCnMYpX08FsFyUbJmRd9ML4frwJkqsXf7pR25LCo=".to_string();
    assert_eq!(
        gen_public_key_from_private(&private).unwrap(),
        "hSDwCYkwp1R0i33ctD73Wg2/Og0mOBr066SpjqqbTmo="
    );
    assert_eq!(gen_public_key_from_private(&"AAEC".to_string()), Err(Error::InvalidKeyLength));
    assert_eq!(gen_public_key_from_private(&"%%".to_string()), Err(Error::InvalidBase64));
}

#[test]
fn fresh_key_pair_belongs_together() {
    let (public, private) = gen_wg_keypair();
    assert_eq!(b64_decode(&private).unwrap().len(), 32);
    assert_eq!(gen_public_key_from_private(&private).unwrap(), public);
}

#[test]
fn device_id_is_md5_hex_of_name() {
    assert_eq!(device_id("DollarOS"), "689d0ce0db60b6900c45cfd93f74f2c8");
}

#[test]
fn configuration_defaults() {
    let mut conf = Config {
        company_name: "acme".to_string(),
        username: "alice".to_string(),
        password: None,
        platform: None,
        code: None,
        device_name: None,
        device_id: None,
        public_key: None,
        private_key: Some("dwdtCnMYpX08FsFyUbJmRd9ML4frwJkqsXf7pR25LCo=".to_string()),
        server: None,
        interface_name: None,
        debug_wg: None,
        conf_file: None,
        state: None,
        vpn_server_name: None,
        vpn_select_strategy: None,
        use_vpn_dns: None,
    };
    assert_eq!(conf.fill_defaults(), Ok(true));
    assert_eq!(conf.interface_name, Some("corplink".to_string()));
    assert_eq!(conf.device_name, Some("DollarOS".to_string()));
    assert_eq!(conf.device_id, Some("689d0ce0db60b6900c45cfd93f74f2c8".to_string()));
    assert_eq!(conf.public_key, Some("hSDwCYkwp1R0i33ctD73Wg2/Og0mOBr066SpjqqbTmo=".to_string()));
    assert_eq!(conf.fill_defaults(), Ok(false));

    conf.private_key = None;
    conf.public_key = None;
    assert_eq!(conf.fill_defaults(), Ok(true));
    let private = conf.private_key.clone().unwrap();
    assert_eq!(gen_public_key_from_private(&private).unwrap(), conf.public_key.clone().unwrap());

    conf.private_key = Some("AAEC".to_string());
    conf.public_key = None;
    assert_eq!(conf.fill_defaults(), Err(Error::InvalidKeyLength));
}

#[test]
fn integers_read_like_std() {
    assert_eq!(parse_u32("24"), Some(24));
    assert_eq!(parse_u32("+7"), Some(7));
    assert_eq!(parse_u32("4294967295"), Some(u32::MAX));
    assert_eq!(parse_u32("4294967296"), None);
    assert_eq!(parse_u32(""), None);
    assert_eq!(parse_u32("+"), None);
    assert_eq!(parse_u32("-1"), None);
    assert_eq!(parse_u32("1 "), None);
    assert_eq!(parse_i64("-9223372036854775808"), Some(i64::MIN));
    assert_eq!(parse_i64("9223372036854775807"), Some(i64::MAX));
    assert_eq!(parse_i64("9223372036854775808"), None);
    assert_eq!(parse_i64("-0"), Some(0));
    assert_eq!(parse_i64("-"), None);
    assert_eq!(parse_i64("+12"), Some(12));
}

#[test]
fn numbers_and_bytes_as_text() {
    assert_eq!(to_decimal(0), "0");
    assert_eq!(to_decimal(1400), "1400");
    assert_eq!(to_decimal(u64::MAX), "18446744073709551615");
    assert_eq!(to_zero_padded(42, 6), "000042");
    assert_eq!(to_zero_padded(999999, 6), "999999");
    assert_eq!(to_hex(&[0x00, 0xab, 0x10]), "00ab10");
    assert_eq!(to_hex(&[]), "");
}

#[test]
fn dns_manager_construction() {
    let m = DNSManager::new();
    assert_eq!(m.interface, "");
    assert!(!m.should_set(1));
    let m = DNSManager::with_interface("corplink".to_string());
    assert_eq!(m.interface, "corplink");
    assert!(m.original_dns.is_none() && m.original_search.is_none());
    assert!(m.should_set(1));
    assert!(!m.should_set(0));
}
