use zlm_node::config::{
    check_config, default_api_base, default_enable_rtc, default_hook_listen,
    default_ip_refresh_interval, default_mgr_base, default_mgr_url,
    default_record_hook_sync_interval, default_record_keep_on_failure, default_record_s3_enable,
    default_report_interval, default_secret, default_tunnel_buffer_size,
    default_tunnel_connect_timeout_secs, default_tunnel_idle_timeout_secs,
    default_tunnel_local_addr, default_tunnel_max_connections, default_tunnel_max_retry_delay_secs,
    default_tunnel_retry_delay_secs, default_tunnel_server_name, default_zlm_http_port, Config,
    ConfigError,
};
use zlm_node::ip::{extract_ipv4, format_ipv4, interface_ip, is_ipv4, response_ipv4, IpError, NetInterface};
use zlm_node::json::JsonValue;
use zlm_node::placeholder::resolve_placeholder;
use zlm_node::tunnel::tunnel_settings;

pub fn sample_config() -> Config {
    Config {
        server_id: None,
        api_base: default_api_base(),
        secret: "s3cret".to_string(),
        mgr_url: default_mgr_url(),
        node_token: String::new(),
        node_token_salt: None,
        custom_ip: None,
        interface: None,
        zlm_http_port: default_zlm_http_port(),
        use_https: false,
        report_interval_secs: default_report_interval(),
        ip_refresh_interval_secs: default_ip_refresh_interval(),
        static_base: None,
        tls_accept_invalid_certs: false,
        enable_rtc_extern_ip_update: default_enable_rtc(),
        http_fmp4_base: None,
        ip_echo_api: None,
        tunnel_enable: false,
        tunnel_local_addr: default_tunnel_local_addr(),
        tunnel_remote_addr: String::new(),
        tunnel_server_name: default_tunnel_server_name(),
        tunnel_ca_cert: None,
        tunnel_client_cert: None,
        tunnel_client_key: None,
        tunnel_max_connections: default_tunnel_max_connections(),
        tunnel_idle_timeout_secs: default_tunnel_idle_timeout_secs(),
        tunnel_connect_timeout_secs: default_tunnel_connect_timeout_secs(),
        tunnel_retry_delay_secs: default_tunnel_retry_delay_secs(),
        tunnel_max_retry_delay_secs: default_tunnel_max_retry_delay_secs(),
        tunnel_buffer_size: default_tunnel_buffer_size(),
        tunnel_disable_tls_resumption: false,
        record_hook_enable: false,
        hook_listen: default_hook_listen(),
        mgr_base: default_mgr_base(),
        record_keep_on_failure: default_record_keep_on_failure(),
        record_hook_sync_interval_secs: default_record_hook_sync_interval(),
        record_s3_enable: default_record_s3_enable(),
    }
}

#[test]
fn defaults_match_the_documented_values() {
    assert_eq!(default_api_base(), "http://127.0.0.1:9080");
    assert_eq!(default_secret(), "");
    assert_eq!(default_mgr_url(), "http://127.0.0.1:3002/api/zlm/report-status");
    assert_eq!(default_zlm_http_port(), 9080);
    assert_eq!(default_report_interval(), 30);
    assert_eq!(default_ip_refresh_interval(), 5);
    assert!(default_enable_rtc());
    assert_eq!(default_tunnel_local_addr(), "127.0.0.1:18080");
    assert_eq!(default_tunnel_server_name(), "tunnel.example.com");
    assert_eq!(default_tunnel_max_connections(), 100);
    assert_eq!(default_tunnel_idle_timeout_secs(), 300);
    assert_eq!(default_tunnel_connect_timeout_secs(), 10);
    assert_eq!(default_tunnel_retry_delay_secs(), 2);
    assert_eq!(default_tunnel_max_retry_delay_secs(), 30);
    assert_eq!(default_tunnel_buffer_size(), 65536);
    assert_eq!(default_hook_listen(), "127.0.0.1:3004");
    assert_eq!(default_mgr_base(), "http://127.0.0.1:3002");
    assert!(default_record_keep_on_failure());
    assert_eq!(default_record_hook_sync_interval(), 60);
    assert!(!default_record_s3_enable());
}

#[test]
fn enabled_tunnel_needs_a_remote_address() {
    let mut c = sample_config();
    assert_eq!(check_config(&c), Ok(()));
    c.tunnel_enable = true;
    assert_eq!(check_config(&c), Err(ConfigError::TunnelRemoteAddrMissing));
    c.tunnel_remote_addr = "tunnel.example.com:443".to_string();
    assert_eq!(check_config(&c), Ok(()));
}

#[test]
fn secret_is_required() {
    let mut c = sample_config();
    c.secret = default_secret();
    assert_eq!(check_config(&c), Err(ConfigError::SecretMissing));
    c.tunnel_enable = true;
    assert_eq!(check_config(&c), Err(ConfigError::SecretMissing));
    c.secret = "s".to_string();
    assert_eq!(check_config(&c), Err(ConfigError::TunnelRemoteAddrMissing));
}

#[test]
fn ipv4_text_is_recognised() {
    assert!(is_ipv4("1.2.3.4"));
    assert!(is_ipv4("255.255.255.255"));
    assert!(is_ipv4("0.0.0.0"));
    assert!(!is_ipv4("256.1.1.1"));
    assert!(!is_ipv4("01.2.3.4"));
    assert!(!is_ipv4("1.2.3"));
    assert!(!is_ipv4("1.2.3.4.5"));
    assert!(!is_ipv4("1..2.3"));
    assert!(!is_ipv4(""));
    assert!(!is_ipv4(" 1.2.3.4"));
}

#[test]
fn first_address_is_extracted_from_free_text() {
    assert_eq!(extract_ipv4("Your IP: 203.0.113.7\n"), Some("203.0.113.7".to_string()));
    assert_eq!(extract_ipv4("ip=1.2.3.400 or 5.6.7.8"), Some("5.6.7.8".to_string()));
    assert_eq!(extract_ipv4("a1.2.3.4b"), Some("1.2.3.4".to_string()));
    assert_eq!(extract_ipv4("version 1.2.3 only"), None);
    assert_eq!(extract_ipv4(""), None);
}

#[test]
fn service_response_is_trimmed_then_searched() {
    assert_eq!(response_ipv4("  198.51.100.2 \n"), Some("198.51.100.2".to_string()));
    assert_eq!(
        response_ipv4("{\"ip\":\"198.51.100.3\"}"),
        Some("198.51.100.3".to_string())
    );
    assert_eq!(response_ipv4("no address here"), None);
}

#[test]
fn interface_address_is_formatted() {
    let ifaces = vec![
        NetInterface { name: "lo".to_string(), ipv4: Some([127, 0, 0, 1]) },
        NetInterface { name: "eth0".to_string(), ipv4: None },
        NetInterface { name: "eth0".to_string(), ipv4: Some([10, 0, 12, 254]) },
    ];
    assert_eq!(interface_ip(&ifaces, "eth0"), Ok("10.0.12.254".to_string()));
    assert_eq!(interface_ip(&ifaces, "lo"), Ok("127.0.0.1".to_string()));
    assert_eq!(interface_ip(&ifaces, "wlan0"), Err(IpError::InterfaceNotFound));
    assert_eq!(format_ipv4([192, 168, 0, 10]), "192.168.0.10");
}

#[test]
fn placeholders_are_expanded() {
    let ifaces = vec![NetInterface { name: "eth0".to_string(), ipv4: Some([10, 1, 2, 3]) }];
    assert_eq!(
        resolve_placeholder("http://{ip}:9080/", "1.2.3.4", &ifaces),
        "http://1.2.3.4:9080/"
    );
    assert_eq!(
        resolve_placeholder("{ip}/{ip}", "5.6.7.8", &ifaces),
        "5.6.7.8/5.6.7.8"
    );
    assert_eq!(
        resolve_placeholder("http://{interface:eth0}:80/", "1.2.3.4", &ifaces),
        "http://10.1.2.3:80/"
    );
    assert_eq!(
        resolve_placeholder("http://{interface:eth9}:80/{interface:eth0}", "1.2.3.4", &ifaces),
        "http://{interface:eth9}:80/10.1.2.3"
    );
    assert_eq!(
        resolve_placeholder("http://{interface:eth0", "1.2.3.4", &ifaces),
        "http://{interface:eth0"
    );
    assert_eq!(resolve_placeholder("plain", "1.2.3.4", &ifaces), "plain");
}

#[test]
fn tunnel_settings_follow_the_configuration() {
    let mut c = sample_config();
    c.tunnel_remote_addr = "tunnel.example.com:443".to_string();
    let t = tunnel_settings(&c, Some(String::new()));
    assert_eq!(t.local_addr, "127.0.0.1:18080");
    assert_eq!(t.remote_addr, "tunnel.example.com:443");
    assert_eq!(t.max_connections, Some(100));
    assert_eq!(t.idle_timeout_secs, Some(300));
    assert_eq!(t.buffer_size, 65536);
    assert_eq!(t.auth_token, None);
    c.tunnel_max_connections = 0;
    c.tunnel_idle_timeout_secs = 0;
    let u = tunnel_settings(&c, Some("tok".to_string()));
    assert_eq!(u.max_connections, None);
    assert_eq!(u.idle_timeout_secs, None);
    assert_eq!(u.auth_token, Some("tok".to_string()));
}

#[test]
fn json_member_is_replaced_or_appended() {
    let v = JsonValue::Object(vec![
        ("a".to_string(), JsonValue::Bool(true)),
        ("b".to_string(), JsonValue::Null),
    ]);
    let w = v.with_member("a".to_string(), JsonValue::Bool(false));
    let x = w.with_member("c".to_string(), JsonValue::Str("z".to_string()));
    match &x {
        JsonValue::Object(f) => {
            let keys: Vec<&str> = f.iter().map(|(k, _)| k.as_str()).collect();
            assert_eq!(keys, vec!["a", "b", "c"]);
            assert!(matches!(f[0].1, JsonValue::Bool(false)));
        }
        _ => panic!("not an object"),
    }
    assert!(matches!(x.get("c"), Some(JsonValue::Str(s)) if s == "z"));
    assert!(x.get("d").is_none());
    let not_object = JsonValue::Null.with_member("a".to_string(), JsonValue::Null);
    assert!(matches!(not_object, JsonValue::Null));
}
