//! The status report sent to the manager.
use vstd::prelude::*;

use crate::config::Config;
use crate::ip::NetInterface;
use crate::json::JsonValue;
use crate::placeholder::{resolve_placeholder, resolved};
use crate::text::{decimal_text, push_decimal, push_str};

verus! {

/// The node's state as reported to the manager.
pub struct StatusReport {
    pub server_id: String,
    pub api_base: String,
    pub secret: String,
    pub public_ip: String,
    pub http_fmp4_base: String,
    pub static_base: String,
    pub version: String,
}

/// `http://{ip}:{port}/` (or `https`), the play base when none is configured.
pub open spec fn default_fmp4_base(use_https: bool, public_ip: Seq<char>, port: u16) -> Seq<char> {
    (if use_https {
        "https"@
    } else {
        "http"@
    }) + "://"@ + public_ip + ":"@ + decimal_text(port as nat) + "/"@
}

/// The HTTP-FMP4 base to report: the configured one, else the default one,
/// with placeholders resolved.
pub open spec fn reported_fmp4_base(config: Config, public_ip: Seq<char>, ifaces: Seq<NetInterface>) -> Seq<char> {
    let raw = match config.http_fmp4_base {
        Some(b) => b@,
        None => default_fmp4_base(config.use_https, public_ip, config.zlm_http_port),
    };
    resolved(raw, public_ip, ifaces)
}

/// The static base to report: the configured one, else the reported
/// HTTP-FMP4 base, with placeholders resolved.
pub open spec fn reported_static_base(config: Config, public_ip: Seq<char>, ifaces: Seq<NetInterface>) -> Seq<char> {
    let raw = match config.static_base {
        Some(b) => b@,
        None => reported_fmp4_base(config, public_ip, ifaces),
    };
    resolved(raw, public_ip, ifaces)
}

/// Builds the report for node `server_id` at `public_ip` running ZLMediaKit
/// `version`, resolving placeholders against `ifaces`.
pub fn build_status_report(
    config: &Config,
    server_id: &str,
    public_ip: &str,
    version: &str,
    ifaces: &Vec<NetInterface>,
) -> (r: StatusReport)
    ensures
        r.server_id@ == server_id@,
        r.api_base@ == config.api_base@,
        r.secret@ == config.secret@,
        r.public_ip@ == public_ip@,
        r.http_fmp4_base@ == reported_fmp4_base(*config, public_ip@, ifaces@),
        r.static_base@ == reported_static_base(*config, public_ip@, ifaces@),
        r.version@ == version@,
        config.http_fmp4_base matches Some(b) ==> r.http_fmp4_base@ == resolved(
            b@,
            public_ip@,
            ifaces@,
        ),
        config.http_fmp4_base is None ==> r.http_fmp4_base@ == resolved(
            default_fmp4_base(config.use_https, public_ip@, config.zlm_http_port),
            public_ip@,
            ifaces@,
        ),
        config.static_base matches Some(b) ==> r.static_base@ == resolved(b@, public_ip@, ifaces@),
        config.static_base is None ==> r.static_base@ == resolved(
            r.http_fmp4_base@,
            public_ip@,
            ifaces@,
        ),
{
    let raw = match &config.http_fmp4_base {
        Some(b) => b.clone(),
        None => {
            let mut d = String::new();
            if config.use_https {
                push_str(&mut d, "https");
            } else {
                push_str(&mut d, "http");
            }
            push_str(&mut d, "://");
            push_str(&mut d, public_ip);
            push_str(&mut d, ":");
            push_decimal(&mut d, config.zlm_http_port as u64);
            push_str(&mut d, "/");
            assert(d@ =~= default_fmp4_base(config.use_https, public_ip@, config.zlm_http_port));
            d
        },
    };
    let http_fmp4_base = resolve_placeholder(raw.as_str(), public_ip, ifaces);
    let static_raw = match &config.static_base {
        Some(s) => s.clone(),
        None => http_fmp4_base.clone(),
    };
    let static_base = resolve_placeholder(static_raw.as_str(), public_ip, ifaces);
    StatusReport {
        server_id: server_id.to_owned(),
        api_base: config.api_base.clone(),
        secret: config.secret.clone(),
        public_ip: public_ip.to_owned(),
        http_fmp4_base,
        static_base,
        version: version.to_owned(),
    }
}

/// Member `i` of `f` is the string member `key: value`.
pub open spec fn has_str_member_at(f: Seq<(String, JsonValue)>, i: int, key: Seq<char>, value: Seq<char>) -> bool {
    0 <= i < f.len() && f[i].0@ == key && (f[i].1 matches JsonValue::Str(s) && s@ == value)
}

fn str_member(key: &str, value: &String) -> (m: (String, JsonValue))
    ensures
        m.0@ == key@,
        m.1 matches JsonValue::Str(s) && s@ == value@,
{
    (key.to_owned(), JsonValue::Str(value.clone()))
}

impl StatusReport {
    /// The report as the JSON object the manager receives.
    pub fn to_json(&self) -> (j: JsonValue)
        ensures
            j matches JsonValue::Object(f) && f@.len() == 7 && has_str_member_at(
                f@,
                0,
                "server_id"@,
                self.server_id@,
            ) && has_str_member_at(f@, 1, "api_base"@, self.api_base@) && has_str_member_at(
                f@,
                2,
                "secret"@,
                self.secret@,
            ) && has_str_member_at(f@, 3, "public_ip"@, self.public_ip@) && has_str_member_at(
                f@,
                4,
                "http_fmp4_base"@,
                self.http_fmp4_base@,
            ) && has_str_member_at(f@, 5, "static_base"@, self.static_base@)
                && has_str_member_at(f@, 6, "version"@, self.version@),
    {
        let mut f: Vec<(String, JsonValue)> = Vec::new();
        f.push(str_member("server_id", &self.server_id));
        f.push(str_member("api_base", &self.api_base));
        f.push(str_member("secret", &self.secret));
        f.push(str_member("public_ip", &self.public_ip));
        f.push(str_member("http_fmp4_base", &self.http_fmp4_base));
        f.push(str_member("static_base", &self.static_base));
        f.push(str_member("version", &self.version));
        JsonValue::Object(f)
    }
}

/// Both bases are reported with their placeholders resolved against the
/// public IP of the report: a configured base is resolved itself, a missing
/// HTTP-FMP4 base is `http(s)://{public_ip}:{port}/`, and a missing static
/// base is the reported HTTP-FMP4 base (resolved once more).
pub proof fn law_bases_resolved(config: Config, public_ip: Seq<char>, ifaces: Seq<NetInterface>)
    ensures
        config.http_fmp4_base matches Some(b) ==> reported_fmp4_base(config, public_ip, ifaces)
            == resolved(b@, public_ip, ifaces),
        config.http_fmp4_base is None ==> reported_fmp4_base(config, public_ip, ifaces) == resolved(
            (if config.use_https {
                "https"@
            } else {
                "http"@
            }) + "://"@ + public_ip + ":"@ + decimal_text(config.zlm_http_port as nat) + "/"@,
            public_ip,
            ifaces,
        ),
        config.static_base matches Some(b) ==> reported_static_base(config, public_ip, ifaces)
            == resolved(b@, public_ip, ifaces),
        config.static_base is None ==> reported_static_base(config, public_ip, ifaces) == resolved(
            reported_fmp4_base(config, public_ip, ifaces),
            public_ip,
            ifaces,
        ),
{
}

} // verus!
