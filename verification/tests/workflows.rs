use zlm_node::zlm::MediaServerIdCache;
use zlm_node::agent::{Agent, AgentAction, AgentEvent, SkipReason, Tick};
use zlm_node::json::{JsonNumber, JsonValue};
use zlm_node::public_ip::{
    builtin_service_url, IpLookup, IpLookupAction, IpLookupError, IpLookupEvent, IpSources,
};
use zlm_node::record::{
    parse_presign, presign_request, presign_url, record_event_url, record_file_from_hook,
    resolve_hook_server_id, server_id_to_remember, is_success_status, PresignError, RecordAction, RecordError,
    RecordEvent, RecordJob, RecordOutcome,
};

fn text(s: &str) -> JsonValue {
    JsonValue::Str(s.to_string())
}

fn object(members: Vec<(&str, JsonValue)>) -> JsonValue {
    JsonValue::Object(members.into_iter().map(|(k, v)| (k.to_string(), v)).collect())
}

fn num(i: i64) -> JsonValue {
    JsonValue::Number(JsonNumber::Int(i))
}

fn get<'a>(v: &'a JsonValue, key: &str) -> Option<&'a JsonValue> {
    match v {
        JsonValue::Object(f) => f.iter().find(|(k, _)| k == key).map(|(_, v)| v),
        _ => None,
    }
}

fn get_str(v: &JsonValue, key: &str) -> Option<String> {
    match get(v, key) {
        Some(JsonValue::Str(s)) => Some(s.clone()),
        _ => None,
    }
}

fn found(a: IpLookupAction) -> Option<String> {
    match a {
        IpLookupAction::Found(s) => Some(s),
        _ => None,
    }
}

fn fetched(a: IpLookupAction) -> Option<String> {
    match a {
        IpLookupAction::Fetch(s) => Some(s),
        _ => None,
    }
}

#[test]
fn custom_ip_answers_at_once() {
    let src = IpSources {
        custom_ip: Some("9.9.9.9".to_string()),
        interface: Some("eth0".to_string()),
        ip_echo_api: Some("https://echo".to_string()),
    };
    let mut l = IpLookup::new();
    assert_eq!(found(l.step(&src, IpLookupEvent::Begin)), Some("9.9.9.9".to_string()));
}

#[test]
fn lookup_falls_through_interface_echo_and_builtin() {
    let src = IpSources {
        custom_ip: None,
        interface: Some("eth0".to_string()),
        ip_echo_api: Some("https://echo.example".to_string()),
    };
    let mut l = IpLookup::new();
    match l.step(&src, IpLookupEvent::Begin) {
        IpLookupAction::LookupInterface(n) => assert_eq!(n, "eth0"),
        _ => panic!("interface first"),
    }
    assert_eq!(
        fetched(l.step(&src, IpLookupEvent::InterfaceAddress(None))),
        Some("https://echo.example".to_string())
    );
    assert_eq!(
        fetched(l.step(&src, IpLookupEvent::Response(Some("garbage".to_string())))),
        Some("https://ip.3322.net".to_string())
    );
    assert_eq!(
        found(l.step(&src, IpLookupEvent::Response(Some(" 203.0.113.9\n".to_string())))),
        Some("203.0.113.9".to_string())
    );
}

#[test]
fn builtin_services_alternate_between_lookups() {
    let src = IpSources { custom_ip: None, interface: None, ip_echo_api: None };
    let mut l = IpLookup::new();
    assert_eq!(fetched(l.step(&src, IpLookupEvent::Begin)), Some("https://ip.3322.net".to_string()));
    match l.step(&src, IpLookupEvent::Response(None)) {
        IpLookupAction::Failed(e) => assert_eq!(e, IpLookupError::BuiltinServiceFailed),
        _ => panic!("failure expected"),
    }
    assert_eq!(
        fetched(l.step(&src, IpLookupEvent::Begin)),
        Some("https://ip.automate.org.cn".to_string())
    );
    match l.step(&src, IpLookupEvent::Response(Some("none".to_string()))) {
        IpLookupAction::Failed(e) => assert_eq!(e, IpLookupError::NoAddressInResponse),
        _ => panic!("failure expected"),
    }
    assert_eq!(fetched(l.step(&src, IpLookupEvent::Begin)), Some("https://ip.3322.net".to_string()));
    assert_eq!(builtin_service_url(1), "https://ip.automate.org.cn");
}

#[test]
fn echo_failure_falls_back_to_builtin() {
    let src = IpSources { custom_ip: None, interface: None, ip_echo_api: Some("https://e".to_string()) };
    let mut l = IpLookup::new();
    assert_eq!(fetched(l.step(&src, IpLookupEvent::Begin)), Some("https://e".to_string()));
    assert_eq!(
        fetched(l.step(&src, IpLookupEvent::Response(None))),
        Some("https://ip.3322.net".to_string())
    );
    assert_eq!(
        found(l.step(&src, IpLookupEvent::Response(Some("1.2.3.4".to_string())))),
        Some("1.2.3.4".to_string())
    );
    assert_eq!(l.next_builtin, 1);
}

fn report_of(a: AgentAction) -> Option<(String, String, String)> {
    match a {
        AgentAction::SendReport { server_id, public_ip, version } => Some((server_id, public_ip, version)),
        _ => None,
    }
}

#[test]
fn report_tick_without_node_id_is_skipped() {
    let mut a = Agent::new(true);
    assert!(matches!(a.step(AgentEvent::Tick(Tick::Report)), AgentAction::ResolveServerId));
    assert!(matches!(a.step(AgentEvent::ServerId(None)), AgentAction::Skip(SkipReason::NoServerId)));
    assert!(matches!(a.step(AgentEvent::Tick(Tick::IpRefresh)), AgentAction::ResolveServerId));
    assert!(matches!(a.step(AgentEvent::ServerId(None)), AgentAction::Wait));
}

#[test]
fn first_report_fetches_the_ip_then_reuses_it() {
    let mut a = Agent::new(true);
    a.step(AgentEvent::Tick(Tick::Report));
    assert!(matches!(a.step(AgentEvent::ServerId(Some("zlm".to_string()))), AgentAction::ProbeVersion));
    assert!(matches!(
        a.step(AgentEvent::VersionProbed("master(1)".to_string())),
        AgentAction::FetchPublicIp
    ));
    assert_eq!(
        report_of(a.step(AgentEvent::PublicIp(Some("1.1.1.1".to_string())))),
        Some(("zlm".to_string(), "1.1.1.1".to_string(), "master(1)".to_string()))
    );
    a.step(AgentEvent::Tick(Tick::Report));
    a.step(AgentEvent::ServerId(Some("zlm".to_string())));
    assert_eq!(
        report_of(a.step(AgentEvent::VersionProbed("offline".to_string()))),
        Some(("zlm".to_string(), "1.1.1.1".to_string(), "offline".to_string()))
    );
    a.step(AgentEvent::Tick(Tick::Report));
    a.step(AgentEvent::ServerId(Some("zlm".to_string())));
    assert_eq!(
        report_of(a.step(AgentEvent::VersionProbed("online (unknown version)".to_string()))),
        Some(("zlm".to_string(), "1.1.1.1".to_string(), "master(1)".to_string()))
    );
}

#[test]
fn first_report_without_ip_is_skipped() {
    let mut a = Agent::new(false);
    a.step(AgentEvent::Tick(Tick::Report));
    a.step(AgentEvent::ServerId(Some("zlm".to_string())));
    a.step(AgentEvent::VersionProbed("v".to_string()));
    assert!(matches!(
        a.step(AgentEvent::PublicIp(None)),
        AgentAction::Skip(SkipReason::InitialIpUnavailable)
    ));
    assert_eq!(a.cached_ip, None);
}

#[test]
fn changed_ip_updates_zlm_then_reports() {
    let mut a = Agent::new(true);
    a.step(AgentEvent::Tick(Tick::IpRefresh));
    a.step(AgentEvent::ServerId(Some("zlm".to_string())));
    assert!(matches!(a.step(AgentEvent::VersionProbed("v1".to_string())), AgentAction::FetchPublicIp));
    match a.step(AgentEvent::PublicIp(Some("2.2.2.2".to_string()))) {
        AgentAction::UpdateExternIp(ip) => assert_eq!(ip, "2.2.2.2"),
        _ => panic!("extern ip update expected"),
    }
    assert_eq!(
        report_of(a.step(AgentEvent::ExternIpUpdated)),
        Some(("zlm".to_string(), "2.2.2.2".to_string(), "v1".to_string()))
    );
    a.step(AgentEvent::Tick(Tick::IpRefresh));
    a.step(AgentEvent::ServerId(Some("zlm".to_string())));
    a.step(AgentEvent::VersionProbed("v1".to_string()));
    assert!(matches!(a.step(AgentEvent::PublicIp(Some("2.2.2.2".to_string()))), AgentAction::Wait));
    a.step(AgentEvent::Tick(Tick::IpRefresh));
    a.step(AgentEvent::ServerId(Some("zlm".to_string())));
    a.step(AgentEvent::VersionProbed("v1".to_string()));
    assert!(matches!(
        a.step(AgentEvent::PublicIp(None)),
        AgentAction::Skip(SkipReason::IpRefreshFailed)
    ));
    assert_eq!(a.cached_ip, Some("2.2.2.2".to_string()));
}

#[test]
fn changed_ip_reports_directly_when_updates_are_off() {
    let mut a = Agent::new(false);
    a.step(AgentEvent::Tick(Tick::IpRefresh));
    a.step(AgentEvent::ServerId(Some("zlm".to_string())));
    a.step(AgentEvent::VersionProbed("v".to_string()));
    assert_eq!(
        report_of(a.step(AgentEvent::PublicIp(Some("3.3.3.3".to_string())))),
        Some(("zlm".to_string(), "3.3.3.3".to_string(), "v".to_string()))
    );
    assert!(matches!(a.step(AgentEvent::ExternIpUpdated), AgentAction::Skip(SkipReason::UnexpectedEvent)));
}

fn hook_body() -> JsonValue {
    object(vec![
        ("mediaServerId", text("zlm-1")),
        ("app", text("live")),
        ("stream", text("cam1")),
        ("file_path", text("/rec/live/cam1/2024-01-01/00-00-00.mp4")),
        ("url", text("record/live/cam1/2024-01-01/00-00-00.mp4")),
        ("start_time", num(1_700_000_000)),
        ("channel_id", text("from-body")),
        ("file_size", num(1024)),
    ])
}

#[test]
fn hook_body_gives_the_recording_with_defaults() {
    let f = record_file_from_hook(&hook_body()).ok().expect("valid body");
    assert_eq!(f.app, "live");
    assert_eq!(f.vhost, "__defaultVhost__");
    assert_eq!(f.stream, "cam1");
    assert_eq!(f.relative_url, "record/live/cam1/2024-01-01/00-00-00.mp4");
    assert_eq!(f.start_time, 1_700_000_000);
    let minimal = object(vec![("stream", text("s")), ("file_path", text("/f.mp4"))]);
    let g = record_file_from_hook(&minimal).ok().expect("valid body");
    assert_eq!(g.app, "rtp");
    assert_eq!(g.relative_url, "");
    assert_eq!(g.start_time, 0);
    let missing = object(vec![("stream", text("s")), ("file_path", text(""))]);
    assert!(matches!(record_file_from_hook(&missing), Err(RecordError::MissingFileOrStream)));
}

#[test]
fn hook_node_id_falls_back_in_order() {
    let body = hook_body();
    assert_eq!(resolve_hook_server_id(&body, Some("c".to_string()), &None), Ok("zlm-1".to_string()));
    let no_id = object(vec![("mediaServerId", text(""))]);
    assert_eq!(
        resolve_hook_server_id(&no_id, Some("cached".to_string()), &Some("cfg".to_string())),
        Ok("cached".to_string())
    );
    assert_eq!(
        resolve_hook_server_id(&no_id, Some(String::new()), &Some("cfg".to_string())),
        Ok("cfg".to_string())
    );
    assert_eq!(resolve_hook_server_id(&no_id, None, &None), Err(RecordError::NoServerId));
}

fn job(s3: bool, keep: bool) -> RecordJob {
    RecordJob::from_hook(&hook_body(), None, &None, 65, s3, keep).ok().expect("job")
}

#[test]
fn job_renders_times_and_milliseconds() {
    let j = job(false, true);
    assert_eq!(j.server_id, "zlm-1");
    assert_eq!(j.start_time_text, "2023-11-14 22:13:20");
    assert_eq!(j.end_time_text, "2023-11-14 22:14:25");
    assert_eq!(j.record_start_ms, 1_700_000_000_000);
}

#[test]
fn s3_disabled_only_notifies() {
    let mut j = job(false, true);
    assert_eq!(j.step(RecordEvent::Begin), RecordAction::Notify);
    assert_eq!(j.local_relative_url, "record/live/cam1/2024-01-01/00-00-00.mp4");
    let p = j.notify_payload(hook_body());
    assert_eq!(get_str(&p, "play_url"), Some(String::new()));
    assert!(matches!(get(&p, "s3_uploaded"), Some(JsonValue::Bool(false))));
    assert_eq!(get_str(&p, "relative_url"), Some("record/live/cam1/2024-01-01/00-00-00.mp4".to_string()));
    assert_eq!(get_str(&p, "node_id"), Some("zlm-1".to_string()));
    assert_eq!(get_str(&p, "start_time"), Some("2023-11-14 22:13:20".to_string()));
    assert!(matches!(
        get(&p, "record_start_ms"),
        Some(JsonValue::Number(JsonNumber::Int(1_700_000_000_000)))
    ));
    assert_eq!(get_str(&p, "channel_id"), Some("from-body".to_string()));
    assert!(matches!(get(&p, "file_size"), Some(JsonValue::Number(JsonNumber::Int(1024)))));
    assert_eq!(j.step(RecordEvent::Notified(false)), RecordAction::Finish(RecordOutcome::Completed));
}

#[test]
fn uploaded_file_is_removed_after_notification() {
    let mut j = job(true, true);
    assert_eq!(j.step(RecordEvent::Begin), RecordAction::CheckFile);
    assert_eq!(j.step(RecordEvent::FileExists(true)), RecordAction::Upload);
    assert_eq!(
        j.step(RecordEvent::Uploaded(Some(("https://s3/obj.mp4".to_string(), "ch-9".to_string())))),
        RecordAction::Notify
    );
    let p = j.notify_payload(hook_body());
    assert_eq!(get_str(&p, "play_url"), Some("https://s3/obj.mp4".to_string()));
    assert!(matches!(get(&p, "s3_uploaded"), Some(JsonValue::Bool(true))));
    assert_eq!(get_str(&p, "relative_url"), Some(String::new()));
    assert_eq!(get_str(&p, "channel_id"), Some("ch-9".to_string()));
    assert_eq!(j.step(RecordEvent::Notified(true)), RecordAction::RemoveUploaded);
    assert_eq!(j.step(RecordEvent::FileRemoved), RecordAction::Finish(RecordOutcome::Completed));
}

#[test]
fn uploaded_file_is_kept_when_notification_fails() {
    let mut j = job(true, false);
    j.step(RecordEvent::Begin);
    j.step(RecordEvent::FileExists(true));
    j.step(RecordEvent::Uploaded(Some(("u".to_string(), "c".to_string()))));
    assert_eq!(
        j.step(RecordEvent::Notified(false)),
        RecordAction::Finish(RecordOutcome::KeptAfterNotifyFailed)
    );
}

#[test]
fn failed_upload_removes_file_unless_kept() {
    let mut j = job(true, false);
    j.step(RecordEvent::Begin);
    j.step(RecordEvent::FileExists(true));
    assert_eq!(j.step(RecordEvent::Uploaded(None)), RecordAction::RemoveFile);
    assert_eq!(j.local_relative_url, "record/live/cam1/2024-01-01/00-00-00.mp4");
    assert_eq!(j.step(RecordEvent::FileRemoved), RecordAction::Notify);
    assert_eq!(j.step(RecordEvent::Notified(true)), RecordAction::Finish(RecordOutcome::Completed));

    let mut k = job(true, true);
    k.step(RecordEvent::Begin);
    k.step(RecordEvent::FileExists(true));
    assert_eq!(k.step(RecordEvent::Uploaded(None)), RecordAction::Notify);

    let mut m = job(true, false);
    m.step(RecordEvent::Begin);
    assert_eq!(m.step(RecordEvent::FileExists(false)), RecordAction::Notify);
    assert_eq!(m.step(RecordEvent::Begin), RecordAction::Finish(RecordOutcome::UnexpectedEvent));
}

#[test]
fn presign_request_and_urls() {
    let f = record_file_from_hook(&hook_body()).ok().expect("valid body");
    let b = presign_request(&f);
    assert_eq!(get_str(&b, "stream"), Some("cam1".to_string()));
    assert_eq!(get_str(&b, "app"), Some("live".to_string()));
    assert_eq!(get_str(&b, "vhost"), Some("__defaultVhost__".to_string()));
    assert_eq!(get_str(&b, "file_path"), Some("/rec/live/cam1/2024-01-01/00-00-00.mp4".to_string()));
    assert_eq!(presign_url("http://mgr:3002"), "http://mgr:3002/api/internal/presign-record");
    assert_eq!(record_event_url("http://mgr:3002"), "http://mgr:3002/api/internal/on-record-event");
    assert!(is_success_status(204));
    assert!(!is_success_status(302));
}

#[test]
fn presign_answer_is_checked() {
    let ok = object(vec![
        ("code", num(0)),
        ("upload_url", text("https://s3/put")),
        ("access_url", text("https://cdn/get")),
        ("channel_id", text("ch-1")),
    ]);
    let u = parse_presign(&ok).ok().expect("accepted");
    assert_eq!(u.upload_url, "https://s3/put");
    assert_eq!(u.access_url, "https://cdn/get");
    assert_eq!(u.channel_id, "ch-1");

    let no_channel = object(vec![
        ("code", num(0)),
        ("upload_url", text("a")),
        ("access_url", text("b")),
    ]);
    assert_eq!(parse_presign(&no_channel).ok().expect("accepted").channel_id, "");

    match parse_presign(&object(vec![("code", num(1)), ("msg", text("no channel"))])) {
        Err(PresignError::Rejected(m)) => assert_eq!(m, "no channel"),
        _ => panic!("rejection expected"),
    }
    match parse_presign(&object(vec![("msg", text("x"))])) {
        Err(PresignError::Rejected(m)) => assert_eq!(m, "x"),
        _ => panic!("rejection expected"),
    }
    match parse_presign(&object(vec![("code", num(2))])) {
        Err(PresignError::Rejected(m)) => assert_eq!(m, "unknown"),
        _ => panic!("rejection expected"),
    }
    assert!(matches!(
        parse_presign(&object(vec![("code", num(0)), ("access_url", text("b"))])),
        Err(PresignError::NoUploadUrl)
    ));
    assert!(matches!(
        parse_presign(&object(vec![("code", num(0)), ("upload_url", text("a"))])),
        Err(PresignError::NoAccessUrl)
    ));
}

#[test]
fn hook_body_fills_an_empty_cache() {
    let mut cache = MediaServerIdCache::new();
    let id = server_id_to_remember(&hook_body(), &cache);
    assert_eq!(id, Some("zlm-1".to_string()));
    assert_eq!(cache.remember(id), Some("zlm-1".to_string()));
    let other = object(vec![("mediaServerId", text("zlm-2"))]);
    assert_eq!(server_id_to_remember(&other, &cache), None);
    assert_eq!(cache.get(), Some("zlm-1".to_string()));
    let empty = MediaServerIdCache::new();
    assert_eq!(server_id_to_remember(&object(vec![("mediaServerId", text(""))]), &empty), None);
    assert_eq!(server_id_to_remember(&object(vec![]), &empty), None);
}

#[test]
fn builtin_index_is_taken_modulo_two() {
    let src = IpSources { custom_ip: None, interface: None, ip_echo_api: None };
    let mut l = IpLookup { stage: zlm_node::public_ip::IpLookupStage::Ready, next_builtin: 7 };
    assert_eq!(
        fetched(l.step(&src, IpLookupEvent::Begin)),
        Some("https://ip.automate.org.cn".to_string())
    );
    assert_eq!(l.next_builtin, 0);
}
