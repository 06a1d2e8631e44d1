//! Talking to ZLMediaKit: API URLs, the version probe and its cache, the
//! `mediaServerId` cache and the choice of node id, and the record hook's
//! address, acceptance check and re-sync back-off.
use vstd::prelude::*;

use crate::json::{json_get, json_i64, str_member, top_or_data_str, get_json_str, JsonValue};
use crate::text::{chars_of, push_str, string_of};

verus! {

/// `{api_base}/index/api/{endpoint}?secret={secret}`.
pub open spec fn api_url(api_base: Seq<char>, endpoint: Seq<char>, secret: Seq<char>) -> Seq<char> {
    api_base + "/index/api/"@ + endpoint + "?secret="@ + secret
}

/// The URL of ZLMediaKit API `endpoint` (such as `version` or
/// `setServerConfig`), authenticated by `secret`.
pub fn zlm_api_url(api_base: &str, endpoint: &str, secret: &str) -> (u: String)
    ensures
        u@ == api_url(api_base@, endpoint@, secret@),
{
    let mut u = String::new();
    push_str(&mut u, api_base);
    push_str(&mut u, "/index/api/");
    push_str(&mut u, endpoint);
    push_str(&mut u, "?secret=");
    push_str(&mut u, secret);
    assert(u@ =~= api_url(api_base@, endpoint@, secret@));
    u
}

/// Reported when ZLMediaKit cannot be reached.
pub open spec fn offline_text() -> Seq<char> {
    "offline"@
}

/// Reported when ZLMediaKit answers but its version cannot be read.
pub open spec fn unknown_version_text() -> Seq<char> {
    "online (unknown version)"@
}

/// What the version request brought back.
pub enum VersionProbe {
    /// The request could not be sent or got no response.
    Unreachable,
    /// A response came; its body as JSON, when it was readable JSON.
    Answered(Option<JsonValue>),
}

/// The version text of a probe: `branch(commit)`, or the branch alone, from
/// the top level or the `data` member; `offline` when ZLMediaKit could not
/// be reached; `online (unknown version)` otherwise.
pub open spec fn probe_text(p: VersionProbe) -> Seq<char> {
    match p {
        VersionProbe::Unreachable => offline_text(),
        VersionProbe::Answered(None) => unknown_version_text(),
        VersionProbe::Answered(Some(v)) => match (
            top_or_data_str(v, "branchName"@),
            top_or_data_str(v, "commitHash"@),
        ) {
            (Some(b), Some(h)) => b + "("@ + h + ")"@,
            (Some(b), None) => b,
            _ => unknown_version_text(),
        },
    }
}

/// The version text of a probe of ZLMediaKit's `version` API.
pub fn version_text(probe: &VersionProbe) -> (t: String)
    ensures
        t@ == probe_text(*probe),
{
    match probe {
        VersionProbe::Unreachable => "offline".to_owned(),
        VersionProbe::Answered(None) => "online (unknown version)".to_owned(),
        VersionProbe::Answered(Some(v)) => {
            let branch = get_json_str(v, "branchName");
            let hash = get_json_str(v, "commitHash");
            match (branch, hash) {
                (Some(b), Some(h)) => {
                    let mut t = String::new();
                    push_str(&mut t, b.as_str());
                    push_str(&mut t, "(");
                    push_str(&mut t, h.as_str());
                    push_str(&mut t, ")");
                    assert(t@ =~= b@ + "("@ + h@ + ")"@);
                    t
                },
                (Some(b), None) => b,
                _ => "online (unknown version)".to_owned(),
            }
        },
    }
}

/// The last real version ZLMediaKit reported.
pub struct VersionCache {
    pub version: Option<String>,
}

/// Version to report for a probe text, and the cache afterwards: a real
/// version is reported and cached; `offline` is reported as it is; an
/// unreadable answer reports the cached version, or `online (unknown
/// version)` when there is none.
pub open spec fn report_version(cache: Option<Seq<char>>, probed: Seq<char>) -> (
    Option<Seq<char>>,
    Seq<char>,
) {
    if probed == offline_text() {
        (cache, offline_text())
    } else if probed == unknown_version_text() {
        match cache {
            Some(c) => (cache, c),
            None => (cache, unknown_version_text()),
        }
    } else {
        (Some(probed), probed)
    }
}

/// The cached version seen as a character sequence.
pub open spec fn cached(o: Option<String>) -> Option<Seq<char>> {
    match o {
        Some(s) => Some(s@),
        None => None,
    }
}

impl VersionCache {
    /// An empty cache.
    pub fn new() -> (c: VersionCache)
        ensures
            c.version is None,
    {
        VersionCache { version: None }
    }

    /// The version to report for the text of a fresh probe, updating the
    /// cache with it when it is a real version.
    pub fn reported_version(&mut self, probed: String) -> (v: String)
        ensures
            (cached(final(self).version), v@) == report_version(cached(old(self).version), probed@),
    {
        let offline = "offline".to_owned();
        let unknown = "online (unknown version)".to_owned();
        if probed == offline {
            probed
        } else if probed == unknown {
            match &self.version {
                Some(c) => c.clone(),
                None => unknown,
            }
        } else {
            self.version = Some(probed.clone());
            probed
        }
    }
}

/// Once a real version is cached, the cache never becomes empty again; it only
/// ever changes to the version just probed; `offline` is never cached, so it
/// is reported exactly when the probe found ZLMediaKit unreachable.
pub proof fn law_version_cache_only_grows(cache: Option<Seq<char>>, probed: Seq<char>)
    requires
        cache != Some(offline_text()),
    ensures
        report_version(cache, probed).0 != Some(offline_text()),
        cache is Some ==> report_version(cache, probed).0 is Some,
        report_version(cache, probed).0 == cache || report_version(cache, probed).0 == Some(
            probed,
        ),
        report_version(cache, probed).1 == offline_text() <==> probed == offline_text(),
        probed == offline_text() ==> report_version(cache, probed).0 == cache,
{
}

/// What the id cache holds after taking in `fetched`: what it held, if
/// anything, else `fetched`.
pub open spec fn remembered(held: Option<Seq<char>>, fetched: Option<Seq<char>>) -> Option<
    Seq<char>,
> {
    if held is Some {
        held
    } else {
        fetched
    }
}

/// The id is still to be fetched.
pub open spec fn id_unknown(held: Option<Seq<char>>) -> bool {
    held is None
}

/// `getServerConfig` is asked only while no id is held: once an id is held,
/// no fetch is needed again and whatever a later call takes in, the held id
/// stays and is the one used; while none is held, the fetched id (if any) is
/// taken.
pub proof fn law_id_fetched_only_while_unknown(held: Option<Seq<char>>, fetched: Option<Seq<char>>)
    ensures
        !id_unknown(held) ==> remembered(held, fetched) == held && !id_unknown(
            remembered(held, fetched),
        ),
        id_unknown(held) ==> remembered(held, fetched) == fetched,
{
}

/// ZLMediaKit's `mediaServerId`, kept for good once it is known.
pub struct MediaServerIdCache {
    pub id: Option<String>,
}

impl MediaServerIdCache {
    /// An empty cache.
    pub fn new() -> (c: MediaServerIdCache)
        ensures
            c.id is None,
    {
        MediaServerIdCache { id: None }
    }

    /// The cached id.
    pub fn get(&self) -> (r: Option<String>)
        ensures
            cached(r) == cached(self.id),
    {
        match &self.id {
            Some(s) => Some(s.clone()),
            None => None,
        }
    }

    /// Whether ZLMediaKit is to be asked for its `mediaServerId`: only while
    /// none is held.
    pub fn needs_fetch(&self) -> (b: bool)
        ensures
            b == id_unknown(cached(self.id)),
    {
        self.id.is_none()
    }

    /// Takes in the id just fetched from ZLMediaKit and returns the id to use:
    /// a cached id is kept and returned whatever was fetched; otherwise the
    /// fetched id is cached and returned.
    pub fn remember(&mut self, fetched: Option<String>) -> (r: Option<String>)
        ensures
            cached(final(self).id) == remembered(cached(old(self).id), cached(fetched)),
            old(self).id is Some ==> cached(final(self).id) == cached(old(self).id),
            old(self).id is None ==> cached(final(self).id) == cached(fetched),
            cached(r) == cached(final(self).id),
    {
        if self.id.is_none() {
            self.id = fetched;
        }
        self.get()
    }
}

/// The node id to report with: `mediaServerId` when known, else the
/// configured fallback; none means the report is skipped.
pub fn choose_server_id(media_server_id: Option<String>, fallback: &Option<String>) -> (r: Option<String>)
    ensures
        cached(r) == match media_server_id {
            Some(id) => Some(id@),
            None => cached(*fallback),
        },
{
    match media_server_id {
        Some(id) => Some(id),
        None => match fallback {
            Some(f) => Some(f.clone()),
            None => None,
        },
    }
}

/// `mediaServerId` in a `getServerConfig` answer: `data[0]["general.mediaServerId"]`.
pub open spec fn config_media_server_id(resp: JsonValue) -> Option<Seq<char>> {
    match json_get(resp, "data"@) {
        Some(JsonValue::Array(a)) => if a@.len() > 0 {
            str_member(a@[0], "general.mediaServerId"@)
        } else {
            None
        },
        _ => None,
    }
}

/// Reads `mediaServerId` out of ZLMediaKit's `getServerConfig` answer.
pub fn media_server_id_from_config(resp: &JsonValue) -> (r: Option<String>)
    ensures
        cached(r) == config_media_server_id(*resp),
{
    match resp.get("data") {
        Some(d) => match d.first() {
            Some(first) => match first.get("general.mediaServerId") {
                Some(m) => m.as_str(),
                None => None,
            },
            None => None,
        },
        None => None,
    }
}

/// Index of the last `:` in `s`.
pub open spec fn last_colon(s: Seq<char>) -> Option<int>
    decreases s.len(),
{
    if s.len() == 0 {
        None
    } else if s.last() == ':' {
        Some(s.len() - 1)
    } else {
        last_colon(s.drop_last())
    }
}

/// The hook address ZLMediaKit is to call: host and port of the listen
/// address (split at its last `:`), with a wildcard host replaced by the
/// loopback address.
pub open spec fn hook_url(listen: Seq<char>) -> Seq<char> {
    let (host, port) = match last_colon(listen) {
        Some(i) => (listen.take(i), listen.skip(i + 1)),
        None => ("127.0.0.1"@, listen),
    };
    let host = if host == "0.0.0.0"@ || host == "::"@ {
        "127.0.0.1"@
    } else {
        host
    };
    "http://"@ + host + ":"@ + port + "/hook/on_record_mp4"@
}

/// The `on_record_mp4` hook URL for the hook server's listen address.
pub fn record_hook_url(hook_listen: &str) -> (u: String)
    ensures
        u@ == hook_url(hook_listen@),
{
    let v = chars_of(hook_listen);
    let mut i = v.len();
    assert(v@.take(v@.len() as int) =~= v@);
    while i > 0 && v[i - 1] != ':'
        invariant
            i <= v@.len(),
            last_colon(v@) == last_colon(v@.take(i as int)),
        decreases i,
    {
        assert(v@.take(i as int).drop_last() =~= v@.take(i - 1));
        i = i - 1;
    }
    let (host, port) = if i == 0 {
        assert(v@.take(0) =~= Seq::<char>::empty());
        assert(v@.subrange(0, v@.len() as int) =~= v@);
        ("127.0.0.1".to_owned(), string_of(&v, 0, v.len()))
    } else {
        assert(v@.take(i as int).last() == ':');
        assert(v@.take(i as int).take(i - 1) =~= v@.take(i - 1));
        assert(v@.skip(i as int) =~= v@.subrange(i as int, v@.len() as int));
        (string_of(&v, 0, i - 1), string_of(&v, i, v.len()))
    };
    proof {
        assert(v@.take(v@.len() as int) =~= v@);
    }
    let wildcard4 = "0.0.0.0".to_owned();
    let wildcard6 = "::".to_owned();
    let host = if host == wildcard4 || host == wildcard6 {
        "127.0.0.1".to_owned()
    } else {
        host
    };
    let mut u = String::new();
    push_str(&mut u, "http://");
    push_str(&mut u, host.as_str());
    push_str(&mut u, ":");
    push_str(&mut u, port.as_str());
    push_str(&mut u, "/hook/on_record_mp4");
    assert(u@ =~= hook_url(hook_listen@));
    u
}

/// The `code` of a ZLMediaKit answer, when it is an integer.
pub fn response_code(resp: &JsonValue) -> (r: Option<i64>)
    ensures
        r == match json_get(*resp, "code"@) {
            Some(c) => json_i64(c),
            None => None,
        },
{
    match resp.get("code") {
        Some(c) => c.as_i64(),
        None => None,
    }
}

/// Setting the hook succeeded only when the HTTP status is 200 and
/// ZLMediaKit answered `code == 0` (how many values `changed` does not
/// matter).
pub fn hook_set_accepted(status: u16, code: Option<i64>) -> (ok: bool)
    ensures
        ok == (status == 200 && code == Some(0i64)),
{
    status == 200 && match code {
        Some(c) => c == 0,
        None => false,
    }
}

/// Delay before setting the hook once more: the steady interval (at least
/// ten seconds) after a success, else the previous delay doubled, at most
/// thirty seconds.
pub open spec fn hook_delay(succeeded: bool, delay: nat, sync_interval: nat) -> nat {
    if succeeded {
        if sync_interval < 10 {
            10
        } else {
            sync_interval
        }
    } else if 2 * delay < 30 {
        2 * delay
    } else {
        30
    }
}

/// The delay before the next attempt to set the record hook.
pub fn next_hook_delay(succeeded: bool, delay_secs: u64, sync_interval_secs: u64) -> (d: u64)
    requires
        !succeeded ==> delay_secs <= u64::MAX / 2,
    ensures
        d == hook_delay(succeeded, delay_secs as nat, sync_interval_secs as nat),
{
    if succeeded {
        if sync_interval_secs < 10 {
            10
        } else {
            sync_interval_secs
        }
    } else if delay_secs * 2 < 30 {
        delay_secs * 2
    } else {
        30
    }
}

/// From the first delay of two seconds, failed attempts wait 2, 4, 8, 16 and
/// then 30 seconds, never more than thirty.
pub proof fn law_hook_backoff_bounded(delay: nat, sync_interval: nat)
    ensures
        hook_delay(false, delay, sync_interval) <= 30,
        delay <= 15 ==> hook_delay(false, delay, sync_interval) == 2 * delay,
        hook_delay(true, delay, sync_interval) >= 10,
        hook_delay(false, 2, sync_interval) == 4 && hook_delay(false, 4, sync_interval) == 8
            && hook_delay(false, 8, sync_interval) == 16 && hook_delay(false, 16, sync_interval)
            == 30 && hook_delay(false, 30, sync_interval) == 30,
{
}

/// The `setServerConfig` body that sets one configuration item.
pub fn server_config_body(key: &str, value: &str) -> (b: JsonValue)
    ensures
        b matches JsonValue::Object(f) && f@.len() == 1 && f@[0].0@ == key@ && (f@[0].1 matches JsonValue::Str(s)
            && s@ == value@),
{
    let mut fields: Vec<(String, JsonValue)> = Vec::new();
    fields.push((key.to_owned(), JsonValue::Str(value.to_owned())));
    JsonValue::Object(fields)
}

/// No `:` in `s`.
pub open spec fn no_colon(s: Seq<char>) -> bool {
    forall|i: int| 0 <= i < s.len() ==> s[i] != ':'
}

proof fn lemma_last_colon_before(h: Seq<char>, p: Seq<char>)
    requires
        no_colon(p),
    ensures
        last_colon(h + seq![':'] + p) == Some(h.len() as int),
        last_colon(p) is None,
    decreases p.len(),
{
    let s = h + seq![':'] + p;
    if p.len() > 0 {
        assert(s.last() == p.last());
        assert(s.drop_last() =~= h + seq![':'] + p.drop_last());
        lemma_last_colon_before(h, p.drop_last());
    } else {
        assert(s.last() == ':');
    }
}

/// The hook address is the listen address's host (the loopback address in
/// place of a wildcard or a missing host) and its port, with the hook path.
pub proof fn law_hook_url(host: Seq<char>, port: Seq<char>)
    requires
        no_colon(port),
    ensures
        hook_url(host + ":"@ + port) == "http://"@ + (if host == "0.0.0.0"@ || host == "::"@ {
            "127.0.0.1"@
        } else {
            host
        }) + ":"@ + port + "/hook/on_record_mp4"@,
        hook_url(port) == "http://127.0.0.1:"@ + port + "/hook/on_record_mp4"@,
{
    reveal_strlit(":");
    reveal_strlit("http://127.0.0.1:");
    reveal_strlit("http://");
    reveal_strlit("127.0.0.1");
    assert(":"@ =~= seq![':']);
    lemma_last_colon_before(host, port);
    let l = host + ":"@ + port;
    assert(l.take(host.len() as int) =~= host);
    assert(l.skip(host.len() + 1int) =~= port);
    assert("http://"@ + "127.0.0.1"@ + ":"@ =~= "http://127.0.0.1:"@);
}

} // verus!
