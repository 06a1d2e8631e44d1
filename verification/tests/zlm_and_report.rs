use zlm_node::config::{
    default_api_base, default_enable_rtc, default_hook_listen, default_ip_refresh_interval,
    default_mgr_base, default_mgr_url, default_record_hook_sync_interval,
    default_record_keep_on_failure, default_record_s3_enable, default_report_interval,
    default_tunnel_buffer_size, default_tunnel_connect_timeout_secs,
    default_tunnel_idle_timeout_secs, default_tunnel_local_addr, default_tunnel_max_connections,
    default_tunnel_max_retry_delay_secs, default_tunnel_retry_delay_secs,
    default_tunnel_server_name, default_zlm_http_port, Config,
};
use zlm_node::ip::NetInterface;
use zlm_node::json::{get_json_str, JsonNumber, JsonValue};
use zlm_node::report::build_status_report;
use zlm_node::token::{generate_token, hash_token, to_hex, token_pair_from_bytes};
use zlm_node::zlm::{
    choose_server_id, hook_set_accepted, media_server_id_from_config, next_hook_delay,
    record_hook_url, response_code, server_config_body, version_text, zlm_api_url,
    MediaServerIdCache, VersionCache, VersionProbe,
};

fn config_for_report() -> Config {
    Config {
        server_id: None,
        api_base: default_api_base(),
        secret: "s3cret".to_string(),
        mgr_url: default_mgr_url(),
        node_token: "tok".to_string(),
        node_token_salt: None,
        custom_ip: None,
        interface: None,
        zlm_http_port: default_zlm_http_port(),
        use_https: false,
        report_interval_secs: default_report_interval(),
        ip_refresh_interval_secs: default_ip_refresh_interval(),
        static_base: None,
        tls_accept_invalid_certs: false,
        enable_rtc_extern_ip_update: default_enable_rtc(),
        http_fmp4_base: None,
        ip_echo_api: None,
        tunnel_enable: false,
        tunnel_local_addr: default_tunnel_local_addr(),
        tunnel_remote_addr: String::new(),
        tunnel_server_name: default_tunnel_server_name(),
        tunnel_ca_cert: None,
        tunnel_client_cert: None,
        tunnel_client_key: None,
        tunnel_max_connections: default_tunnel_max_connections(),
        tunnel_idle_timeout_secs: default_tunnel_idle_timeout_secs(),
        tunnel_connect_timeout_secs: default_tunnel_connect_timeout_secs(),
        tunnel_retry_delay_secs: default_tunnel_retry_delay_secs(),
        tunnel_max_retry_delay_secs: default_tunnel_max_retry_delay_secs(),
        tunnel_buffer_size: default_tunnel_buffer_size(),
        tunnel_disable_tls_resumption: false,
        record_hook_enable: false,
        hook_listen: default_hook_listen(),
        mgr_base: default_mgr_base(),
        record_keep_on_failure: default_record_keep_on_failure(),
        record_hook_sync_interval_secs: default_record_hook_sync_interval(),
        record_s3_enable: default_record_s3_enable(),
    }
}

fn text(s: &str) -> JsonValue {
    JsonValue::Str(s.to_string())
}

fn object(members: Vec<(&str, JsonValue)>) -> JsonValue {
    JsonValue::Object(members.into_iter().map(|(k, v)| (k.to_string(), v)).collect())
}

fn num(i: i64) -> JsonValue {
    JsonValue::Number(JsonNumber::Int(i))
}

#[test]
fn api_urls_carry_the_secret() {
    assert_eq!(
        zlm_api_url("http://127.0.0.1:9080", "version", "s3cr"),
        "http://127.0.0.1:9080/index/api/version?secret=s3cr"
    );
}

#[test]
fn version_text_covers_every_probe_outcome() {
    assert_eq!(version_text(&VersionProbe::Unreachable), "offline");
    assert_eq!(version_text(&VersionProbe::Answered(None)), "online (unknown version)");
    let full = object(vec![("branchName", text("master")), ("commitHash", text("a485d89"))]);
    assert_eq!(version_text(&VersionProbe::Answered(Some(full))), "master(a485d89)");
    let nested = object(vec![(
        "data",
        object(vec![("branchName", text("dev")), ("commitHash", text("ff00"))]),
    )]);
    assert_eq!(version_text(&VersionProbe::Answered(Some(nested))), "dev(ff00)");
    let branch_only = object(vec![("branchName", text("main"))]);
    assert_eq!(version_text(&VersionProbe::Answered(Some(branch_only))), "main");
    let hash_only = object(vec![("commitHash", text("abc"))]);
    assert_eq!(
        version_text(&VersionProbe::Answered(Some(hash_only))),
        "online (unknown version)"
    );
}

#[test]
fn top_level_string_wins_over_data() {
    let v = object(vec![
        ("k", num(3)),
        ("data", object(vec![("k", text("inner"))])),
    ]);
    assert_eq!(get_json_str(&v, "k"), Some("inner".to_string()));
    let w = object(vec![("k", text("outer")), ("data", object(vec![("k", text("inner"))]))]);
    assert_eq!(get_json_str(&w, "k"), Some("outer".to_string()));
    assert_eq!(get_json_str(&text("x"), "k"), None);
}

#[test]
fn version_cache_keeps_the_last_real_version() {
    let mut cache = VersionCache::new();
    assert_eq!(cache.reported_version("online (unknown version)".to_string()), "online (unknown version)");
    assert_eq!(cache.version, None);
    assert_eq!(cache.reported_version("master(a485d89)".to_string()), "master(a485d89)");
    assert_eq!(cache.reported_version("online (unknown version)".to_string()), "master(a485d89)");
    assert_eq!(cache.reported_version("offline".to_string()), "offline");
    assert_eq!(cache.version, Some("master(a485d89)".to_string()));
    assert_eq!(cache.reported_version("dev(1)".to_string()), "dev(1)");
    assert_eq!(cache.version, Some("dev(1)".to_string()));
}

#[test]
fn media_server_id_is_cached_once_found() {
    let mut cache = MediaServerIdCache::new();
    assert!(cache.needs_fetch());
    assert_eq!(cache.remember(None), None);
    assert!(cache.needs_fetch());
    assert_eq!(cache.remember(Some("zlm-1".to_string())), Some("zlm-1".to_string()));
    assert_eq!(cache.remember(Some("zlm-2".to_string())), Some("zlm-1".to_string()));
    assert_eq!(cache.get(), Some("zlm-1".to_string()));
    assert!(!cache.needs_fetch());
}

#[test]
fn server_id_falls_back_to_configuration() {
    let fallback = Some("cfg".to_string());
    assert_eq!(choose_server_id(Some("m".to_string()), &fallback), Some("m".to_string()));
    assert_eq!(choose_server_id(None, &fallback), Some("cfg".to_string()));
    assert_eq!(choose_server_id(None, &None), None);
}

#[test]
fn media_server_id_is_read_from_server_config() {
    let resp = object(vec![
        ("code", num(0)),
        (
            "data",
            JsonValue::Array(vec![object(vec![("general.mediaServerId", text("your_server_id"))])]),
        ),
    ]);
    assert_eq!(media_server_id_from_config(&resp), Some("your_server_id".to_string()));
    let empty = object(vec![("data", JsonValue::Array(vec![]))]);
    assert_eq!(media_server_id_from_config(&empty), None);
    let not_array = object(vec![("data", object(vec![("general.mediaServerId", text("x"))]))]);
    assert_eq!(media_server_id_from_config(&not_array), None);
}

#[test]
fn hook_url_points_at_the_listener() {
    assert_eq!(record_hook_url("127.0.0.1:3004"), "http://127.0.0.1:3004/hook/on_record_mp4");
    assert_eq!(record_hook_url("0.0.0.0:4000"), "http://127.0.0.1:4000/hook/on_record_mp4");
    assert_eq!(record_hook_url("10.0.0.5:81"), "http://10.0.0.5:81/hook/on_record_mp4");
    assert_eq!(record_hook_url("3005"), "http://127.0.0.1:3005/hook/on_record_mp4");
}

#[test]
fn hook_is_set_only_on_success_with_code_zero() {
    let ok = object(vec![("code", num(0)), ("changed", num(1))]);
    assert_eq!(response_code(&ok), Some(0));
    assert!(hook_set_accepted(200, response_code(&ok)));
    assert!(!hook_set_accepted(500, Some(0)));
    assert!(!hook_set_accepted(204, Some(0)));
    assert!(!hook_set_accepted(200, Some(-1)));
    assert!(!hook_set_accepted(200, None));
    assert_eq!(response_code(&object(vec![("code", text("0"))])), None);
}

#[test]
fn hook_retry_backs_off_to_thirty_seconds() {
    let mut d = 2;
    let mut seen = vec![];
    for _ in 0..6 {
        d = next_hook_delay(false, d, 60);
        seen.push(d);
    }
    assert_eq!(seen, vec![4, 8, 16, 30, 30, 30]);
    assert_eq!(next_hook_delay(true, 30, 60), 60);
    assert_eq!(next_hook_delay(true, 30, 3), 10);
}

#[test]
fn server_config_body_has_one_member() {
    match server_config_body("rtc.externIP", "1.2.3.4") {
        JsonValue::Object(f) => {
            assert_eq!(f.len(), 1);
            assert_eq!(f[0].0, "rtc.externIP");
            assert!(matches!(&f[0].1, JsonValue::Str(s) if s == "1.2.3.4"));
        }
        _ => panic!("not an object"),
    }
}

#[test]
fn report_uses_default_and_configured_bases() {
    let mut c = config_for_report();
    let ifaces = vec![NetInterface { name: "eth0".to_string(), ipv4: Some([10, 0, 0, 2]) }];
    let r = build_status_report(&c, "node-1", "1.2.3.4", "master(x)", &ifaces);
    assert_eq!(r.server_id, "node-1");
    assert_eq!(r.api_base, "http://127.0.0.1:9080");
    assert_eq!(r.public_ip, "1.2.3.4");
    assert_eq!(r.http_fmp4_base, "http://1.2.3.4:9080/");
    assert_eq!(r.static_base, "http://1.2.3.4:9080/");
    assert_eq!(r.version, "master(x)");

    c.use_https = true;
    c.zlm_http_port = 443;
    c.static_base = Some("https://cdn/{interface:eth0}/".to_string());
    let r = build_status_report(&c, "node-1", "1.2.3.4", "v", &ifaces);
    assert_eq!(r.http_fmp4_base, "https://1.2.3.4:443/");
    assert_eq!(r.static_base, "https://cdn/10.0.0.2/");

    c.http_fmp4_base = Some("http://{ip}:8080/live/".to_string());
    c.static_base = None;
    let r = build_status_report(&c, "n", "5.6.7.8", "v", &ifaces);
    assert_eq!(r.http_fmp4_base, "http://5.6.7.8:8080/live/");
    assert_eq!(r.static_base, "http://5.6.7.8:8080/live/");

    match r.to_json() {
        JsonValue::Object(f) => {
            let keys: Vec<&str> = f.iter().map(|(k, _)| k.as_str()).collect();
            assert_eq!(
                keys,
                vec!["server_id", "api_base", "secret", "public_ip", "http_fmp4_base", "static_base", "version"]
            );
        }
        _ => panic!("not an object"),
    }
}

#[test]
fn token_hash_is_plain_blake3_without_salt() {
    assert_eq!(
        hash_token("", None),
        "af1349b9f5f9a1a6a0404dea36dcc9499bcb25c9adc112b7cc9a93cae41f3262"
    );
    assert_eq!(
        hash_token("abc", None),
        "6437b3ac38465133ffb63b75273a8db548c558465d79db03fd359c6cd5bd9d85"
    );
    assert_eq!(hash_token("my-token", None), blake3::hash(b"my-token").to_hex().to_string());
}

#[test]
fn token_hash_is_keyed_with_a_salt() {
    let key = blake3::hash(b"pepper");
    let expected = blake3::keyed_hash(key.as_bytes(), b"my-token").to_hex().to_string();
    let h = hash_token("my-token", Some("pepper"));
    assert_eq!(h, expected);
    assert_ne!(h, hash_token("my-token", None));
    assert_ne!(h, hash_token("my-token", Some("salt")));
}

#[test]
fn hex_is_lower_case_two_digits_per_byte() {
    let mut bytes = [0u8; 32];
    bytes[0] = 0x0f;
    bytes[1] = 0xa0;
    bytes[31] = 0xff;
    let h = to_hex(&bytes);
    assert_eq!(h.len(), 64);
    assert!(h.starts_with("0fa000"));
    assert!(h.ends_with("00ff"));
}

#[test]
fn token_pair_hashes_the_hex_token() {
    let bytes = [7u8; 32];
    let p = token_pair_from_bytes(&bytes, None);
    assert_eq!(p.token, "07".repeat(32));
    assert_eq!(p.report_token, hash_token(&p.token, None));
    let q = token_pair_from_bytes(&bytes, Some("s"));
    assert_eq!(q.token, p.token);
    assert_eq!(q.report_token, hash_token(&p.token, Some("s")));
}

#[test]
fn generated_tokens_are_random_hex() {
    let a = generate_token(None).ok().expect("random source");
    let b = generate_token(None).ok().expect("random source");
    assert_eq!(a.token.len(), 64);
    assert!(a.token.chars().all(|c| c.is_ascii_digit() || ('a'..='f').contains(&c)));
    assert_ne!(a.token, b.token);
    assert_eq!(a.report_token, hash_token(&a.token, None));
}
