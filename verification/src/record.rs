//! The `on_record_mp4` hook: which node id to use, what the recording is, and
//! the upload-and-notify workflow as a state machine (check the file, upload
//! it through a presigned URL, notify the manager, clean up).
use vstd::prelude::*;

use crate::ip::opt_text;
use crate::json::{json_get, json_i64, str_member, JsonNumber, JsonValue};
use crate::report::has_str_member_at;
use crate::text::push_str;
use crate::zlm::{cached, remembered, MediaServerIdCache};

verus! {

/// `chrono`'s UTC rendering `%Y-%m-%d %H:%M:%S` of a Unix timestamp, when the
/// timestamp is in range.
pub uninterp spec fn utc_timestamp_text(secs: i64) -> Option<Seq<char>>;

/// `chrono::DateTime::from_timestamp` then `format("%Y-%m-%d %H:%M:%S")`:
/// claims only that the text is a function of the timestamp.
#[verifier::external_body]
fn format_utc_timestamp(secs: i64) -> (r: Option<String>)
    ensures
        opt_text(r) == utc_timestamp_text(secs),
{
    match chrono::DateTime::from_timestamp(secs, 0) {
        Some(dt) => Some(dt.format("%Y-%m-%d %H:%M:%S").to_string()),
        None => None,
    }
}

/// Why a recording cannot be handled.
#[derive(Debug, Clone, Copy, PartialEq, Eq, Structural)]
pub enum RecordError {
    /// The hook body names no file or no stream.
    MissingFileOrStream,
    /// No node id in the body, the cache or the configuration.
    NoServerId,
}

/// A string member with a default.
pub open spec fn str_or(v: JsonValue, key: Seq<char>, default: Seq<char>) -> Seq<char> {
    match str_member(v, key) {
        Some(s) => s,
        None => default,
    }
}

/// An integer member with a default.
pub open spec fn i64_or(v: JsonValue, key: Seq<char>, default: i64) -> i64 {
    match json_get(v, key) {
        Some(m) => match json_i64(m) {
            Some(i) => i,
            None => default,
        },
        None => default,
    }
}

fn str_or_default(v: &JsonValue, key: &str, default: &str) -> (s: String)
    ensures
        s@ == str_or(*v, key@, default@),
{
    let found = match v.get(key) {
        Some(m) => m.as_str(),
        None => None,
    };
    match found {
        Some(s) => s,
        None => default.to_owned(),
    }
}

/// A recording as the hook describes it.
pub struct RecordFile {
    pub file_path: String,
    pub stream: String,
    pub app: String,
    pub vhost: String,
    /// ZLMediaKit's relative URL of the file, for local playback.
    pub relative_url: String,
    /// Start of the recording, in Unix seconds.
    pub start_time: i64,
}

/// Reads the recording out of the hook body: `file_path`, `stream`, `url`
/// default to empty, `app` to `rtp`, `vhost` to `__defaultVhost__`,
/// `start_time` to 0; a body without a file path or a stream is refused.
pub fn record_file_from_hook(body: &JsonValue) -> (r: Result<RecordFile, RecordError>)
    ensures
        match r {
            Ok(f) => {
                &&& f.file_path@ == str_or(*body, "file_path"@, ""@)
                &&& f.stream@ == str_or(*body, "stream"@, ""@)
                &&& f.app@ == str_or(*body, "app"@, "rtp"@)
                &&& f.vhost@ == str_or(*body, "vhost"@, "__defaultVhost__"@)
                &&& f.relative_url@ == str_or(*body, "url"@, ""@)
                &&& f.start_time == i64_or(*body, "start_time"@, 0)
                &&& f.file_path@.len() > 0 && f.stream@.len() > 0
            },
            Err(e) => e == RecordError::MissingFileOrStream && (str_or(*body, "file_path"@, ""@).len()
                == 0 || str_or(*body, "stream"@, ""@).len() == 0),
        },
{
    let file_path = str_or_default(body, "file_path", "");
    let stream = str_or_default(body, "stream", "");
    let app = str_or_default(body, "app", "rtp");
    let vhost = str_or_default(body, "vhost", "__defaultVhost__");
    let relative_url = str_or_default(body, "url", "");
    if file_path.as_str().is_empty() || stream.as_str().is_empty() {
        return Err(RecordError::MissingFileOrStream);
    }
    let start_time = match body.get("start_time") {
        Some(m) => match m.as_i64() {
            Some(i) => i,
            None => 0,
        },
        None => 0,
    };
    Ok(RecordFile { file_path, stream, app, vhost, relative_url, start_time })
}

/// A string that is present and not empty.
pub open spec fn non_empty(o: Option<Seq<char>>) -> bool {
    o matches Some(s) && s.len() > 0
}

/// The node id for a recording: the body's `mediaServerId`, else the cached
/// one, else the configured fallback, skipping empty ones.
pub open spec fn hook_server_id_spec(
    body: JsonValue,
    cached: Option<Seq<char>>,
    fallback: Option<Seq<char>>,
) -> Option<Seq<char>> {
    if non_empty(str_member(body, "mediaServerId"@)) {
        str_member(body, "mediaServerId"@)
    } else if non_empty(cached) {
        cached
    } else if non_empty(fallback) {
        fallback
    } else {
        None
    }
}

/// The node id for a recording, or `NoServerId` when all sources are empty.
pub fn resolve_hook_server_id(body: &JsonValue, cached: Option<String>, fallback: &Option<String>) -> (r: Result<String, RecordError>)
    ensures
        match r {
            Ok(id) => hook_server_id_spec(*body, opt_text(cached), opt_text(*fallback)) == Some(id@),
            Err(e) => hook_server_id_spec(*body, opt_text(cached), opt_text(*fallback)) is None
                && e == RecordError::NoServerId,
        },
{
    let from_body = match body.get("mediaServerId") {
        Some(m) => m.as_str(),
        None => None,
    };
    if let Some(id) = from_body {
        if !id.as_str().is_empty() {
            return Ok(id);
        }
    }
    if let Some(id) = cached {
        if !id.as_str().is_empty() {
            return Ok(id);
        }
    }
    if let Some(id) = fallback {
        if !id.as_str().is_empty() {
            return Ok(id.clone());
        }
    }
    Err(RecordError::NoServerId)
}

/// The id the shared id cache is to take in from a hook body: the body's
/// non-empty `mediaServerId` while the cache holds none.
pub open spec fn hook_id_to_remember(body: JsonValue, held: Option<Seq<char>>) -> Option<Seq<char>> {
    if held is None && non_empty(str_member(body, "mediaServerId"@)) {
        str_member(body, "mediaServerId"@)
    } else {
        None
    }
}

/// The `mediaServerId` of a hook body for the shared cache to remember, when
/// the cache is still empty.
pub fn server_id_to_remember(body: &JsonValue, cache: &MediaServerIdCache) -> (r: Option<String>)
    ensures
        opt_text(r) == hook_id_to_remember(*body, cached(cache.id)),
{
    if cache.id.is_some() {
        return None;
    }
    let from_body = match body.get("mediaServerId") {
        Some(m) => m.as_str(),
        None => None,
    };
    match from_body {
        Some(id) => if id.as_str().is_empty() {
            None
        } else {
            Some(id)
        },
        None => None,
    }
}

/// A hook body with a `mediaServerId` fills an empty shared cache with that
/// id, which is also the id the recording is reported under; a cache that
/// holds an id keeps it.
pub proof fn law_hook_body_fills_cache(
    body: JsonValue,
    held: Option<Seq<char>>,
    fallback: Option<Seq<char>>,
)
    ensures
        held is None && non_empty(str_member(body, "mediaServerId"@)) ==> remembered(
            held,
            hook_id_to_remember(body, held),
        ) == str_member(body, "mediaServerId"@) && hook_server_id_spec(body, held, fallback)
            == str_member(body, "mediaServerId"@),
        held is Some ==> remembered(held, hook_id_to_remember(body, held)) == held,
{
}

/// Where the workflow stands.
#[derive(Debug, Clone, Copy, PartialEq, Eq, Structural)]
pub enum RecordStage {
    Ready,
    CheckingFile,
    Uploading,
    RemovingAfterFailedUpload,
    Notifying,
    CleaningUp,
    Done,
}

/// How the workflow ended.
#[derive(Debug, Clone, Copy, PartialEq, Eq, Structural)]
pub enum RecordOutcome {
    /// The manager was notified (and an uploaded file removed).
    Completed,
    /// The file was uploaded but the manager was not notified; it is kept.
    KeptAfterNotifyFailed,
    /// An outcome came that the workflow was not waiting for.
    UnexpectedEvent,
}

/// What the caller hands to the workflow.
pub enum RecordEvent {
    Begin,
    /// Whether the recording exists on disk.
    FileExists(bool),
    /// The uploaded object's access URL and channel id, or none on failure.
    Uploaded(Option<(String, String)>),
    /// The file removal asked for was attempted.
    FileRemoved,
    /// Whether the manager accepted the notification.
    Notified(bool),
}

/// What the workflow asks of the caller.
#[derive(Debug, Clone, Copy, PartialEq, Eq, Structural)]
pub enum RecordAction {
    /// Check whether the recording's file exists.
    CheckFile,
    /// Upload the file through a presigned URL from the manager.
    Upload,
    /// Remove the file (the upload failed and files are not kept).
    RemoveFile,
    /// Send `notify_payload` to the manager.
    Notify,
    /// Remove the uploaded file, then its directory if it is empty.
    RemoveUploaded,
    /// The workflow is over.
    Finish(RecordOutcome),
}

/// One recording being handled.
pub struct RecordJob {
    pub stage: RecordStage,
    pub s3_enable: bool,
    pub keep_on_failure: bool,
    pub file: RecordFile,
    pub server_id: String,
    pub start_time_text: String,
    pub end_time_text: String,
    pub record_start_ms: i64,
    pub play_url: String,
    pub s3_uploaded: bool,
    pub local_relative_url: String,
    pub channel_id: Option<String>,
    pub notify_ok: bool,
}

/// The workflow's state seen through the views of its strings.
pub struct JobModel {
    pub stage: RecordStage,
    pub s3_enable: bool,
    pub keep_on_failure: bool,
    pub relative_url: Seq<char>,
    pub play_url: Seq<char>,
    pub s3_uploaded: bool,
    pub local_relative_url: Seq<char>,
    pub channel_id: Option<Seq<char>>,
    pub notify_ok: bool,
}

pub enum RecordEventModel {
    Begin,
    FileExists(bool),
    Uploaded(Option<(Seq<char>, Seq<char>)>),
    FileRemoved,
    Notified(bool),
}

pub open spec fn job_model(j: RecordJob) -> JobModel {
    JobModel {
        stage: j.stage,
        s3_enable: j.s3_enable,
        keep_on_failure: j.keep_on_failure,
        relative_url: j.file.relative_url@,
        play_url: j.play_url@,
        s3_uploaded: j.s3_uploaded,
        local_relative_url: j.local_relative_url@,
        channel_id: opt_text(j.channel_id),
        notify_ok: j.notify_ok,
    }
}

pub open spec fn record_event_model(e: RecordEvent) -> RecordEventModel {
    match e {
        RecordEvent::Begin => RecordEventModel::Begin,
        RecordEvent::FileExists(b) => RecordEventModel::FileExists(b),
        RecordEvent::Uploaded(u) => RecordEventModel::Uploaded(
            match u {
                Some((a, c)) => Some((a@, c@)),
                None => None,
            },
        ),
        RecordEvent::FileRemoved => RecordEventModel::FileRemoved,
        RecordEvent::Notified(b) => RecordEventModel::Notified(b),
    }
}

/// One step of the workflow. With S3 disabled the file is left where it is
/// and only the manager is notified, with the local relative URL. With S3
/// enabled an existing file is uploaded; when the upload fails the relative
/// URL is reported instead and the file is removed unless failed files are
/// kept. The uploaded file is removed only after the manager accepted the
/// notification.
pub open spec fn record_step(m: JobModel, e: RecordEventModel) -> (JobModel, RecordAction) {
    let local = JobModel { local_relative_url: m.relative_url, ..m };
    match (m.stage, e) {
        (RecordStage::Ready, RecordEventModel::Begin) => if m.s3_enable {
            (JobModel { stage: RecordStage::CheckingFile, ..m }, RecordAction::CheckFile)
        } else {
            (JobModel { stage: RecordStage::Notifying, ..local }, RecordAction::Notify)
        },
        (RecordStage::CheckingFile, RecordEventModel::FileExists(exists)) => if exists {
            (JobModel { stage: RecordStage::Uploading, ..m }, RecordAction::Upload)
        } else {
            (JobModel { stage: RecordStage::Notifying, ..local }, RecordAction::Notify)
        },
        (RecordStage::Uploading, RecordEventModel::Uploaded(u)) => match u {
            Some((access_url, channel_id)) => (
                JobModel {
                    stage: RecordStage::Notifying,
                    play_url: access_url,
                    s3_uploaded: true,
                    channel_id: Some(channel_id),
                    ..m
                },
                RecordAction::Notify,
            ),
            None => if m.keep_on_failure {
                (JobModel { stage: RecordStage::Notifying, ..local }, RecordAction::Notify)
            } else {
                (
                    JobModel { stage: RecordStage::RemovingAfterFailedUpload, ..local },
                    RecordAction::RemoveFile,
                )
            },
        },
        (RecordStage::RemovingAfterFailedUpload, RecordEventModel::FileRemoved) => (
            JobModel { stage: RecordStage::Notifying, ..m },
            RecordAction::Notify,
        ),
        (RecordStage::Notifying, RecordEventModel::Notified(ok)) => if m.s3_uploaded && ok {
            (
                JobModel { stage: RecordStage::CleaningUp, notify_ok: ok, ..m },
                RecordAction::RemoveUploaded,
            )
        } else if m.s3_uploaded {
            (
                JobModel { stage: RecordStage::Done, notify_ok: ok, ..m },
                RecordAction::Finish(RecordOutcome::KeptAfterNotifyFailed),
            )
        } else {
            (
                JobModel { stage: RecordStage::Done, notify_ok: ok, ..m },
                RecordAction::Finish(RecordOutcome::Completed),
            )
        },
        (RecordStage::CleaningUp, RecordEventModel::FileRemoved) => (
            JobModel { stage: RecordStage::Done, ..m },
            RecordAction::Finish(RecordOutcome::Completed),
        ),
        _ => (m, RecordAction::Finish(RecordOutcome::UnexpectedEvent)),
    }
}

impl RecordJob {
    /// Starts handling the recording a hook announced: reads it from the body,
    /// picks the node id, and renders the start and end times (the end is the
    /// start plus `time_len_secs`; a timestamp out of range renders empty).
    /// `record_start_ms` is the start in milliseconds, with two's-complement
    /// wrap-around as in a release build.
    pub fn from_hook(
        body: &JsonValue,
        cached_server_id: Option<String>,
        fallback_server_id: &Option<String>,
        time_len_secs: i64,
        s3_enable: bool,
        keep_on_failure: bool,
    ) -> (r: Result<RecordJob, RecordError>)
        ensures
            match r {
                Ok(j) => {
                    &&& j.stage == RecordStage::Ready
                    &&& j.s3_enable == s3_enable && j.keep_on_failure == keep_on_failure
                    &&& j.file.file_path@ == str_or(*body, "file_path"@, ""@)
                    &&& j.file.stream@ == str_or(*body, "stream"@, ""@)
                    &&& j.file.app@ == str_or(*body, "app"@, "rtp"@)
                    &&& j.file.vhost@ == str_or(*body, "vhost"@, "__defaultVhost__"@)
                    &&& j.file.relative_url@ == str_or(*body, "url"@, ""@)
                    &&& j.file.start_time == i64_or(*body, "start_time"@, 0)
                    &&& j.file.file_path@.len() > 0 && j.file.stream@.len() > 0
                    &&& hook_server_id_spec(*body, opt_text(cached_server_id), opt_text(*fallback_server_id))
                        == Some(j.server_id@)
                    &&& j.start_time_text@ == match utc_timestamp_text(j.file.start_time) {
                        Some(t) => t,
                        None => Seq::empty(),
                    }
                    &&& j.end_time_text@ == match utc_timestamp_text(
                        j.file.start_time.wrapping_add(time_len_secs),
                    ) {
                        Some(t) => t,
                        None => Seq::empty(),
                    }
                    &&& j.record_start_ms == j.file.start_time.wrapping_mul(1000)
                    &&& j.play_url@.len() == 0 && !j.s3_uploaded && j.local_relative_url@.len() == 0
                    &&& j.channel_id is None && !j.notify_ok
                    &&& body matches JsonValue::Object(_)
                    &&& record_inv(job_model(j))
                },
                Err(e) => {
                    ||| (e == RecordError::MissingFileOrStream && (str_or(*body, "file_path"@, ""@).len()
                        == 0 || str_or(*body, "stream"@, ""@).len() == 0))
                    ||| (e == RecordError::NoServerId && str_or(*body, "file_path"@, ""@).len() > 0
                        && str_or(*body, "stream"@, ""@).len() > 0 && hook_server_id_spec(
                        *body,
                        opt_text(cached_server_id),
                        opt_text(*fallback_server_id),
                    ) is None)
                },
            },
    {
        let file = match record_file_from_hook(body) {
            Ok(f) => f,
            Err(e) => return Err(e),
        };
        proof {
            // a body with a string member is an object
            reveal_strlit("");
            if !(body matches JsonValue::Object(_)) {
                assert(json_get(*body, "file_path"@) is None);
            }
        }
        let server_id = match resolve_hook_server_id(body, cached_server_id, fallback_server_id) {
            Ok(id) => id,
            Err(e) => return Err(e),
        };
        let start_time_text = match format_utc_timestamp(file.start_time) {
            Some(t) => t,
            None => String::new(),
        };
        let end_time_text = match format_utc_timestamp(file.start_time.wrapping_add(time_len_secs)) {
            Some(t) => t,
            None => String::new(),
        };
        let record_start_ms = file.start_time.wrapping_mul(1000);
        Ok(RecordJob {
            stage: RecordStage::Ready,
            s3_enable,
            keep_on_failure,
            file,
            server_id,
            start_time_text,
            end_time_text,
            record_start_ms,
            play_url: String::new(),
            s3_uploaded: false,
            local_relative_url: String::new(),
            channel_id: None,
            notify_ok: false,
        })
    }

    /// Advances the workflow by one event and says what to do next.
    pub fn step(&mut self, event: RecordEvent) -> (a: RecordAction)
        ensures
            (job_model(*final(self)), a) == record_step(job_model(*old(self)), record_event_model(event)),
            final(self).file == old(self).file,
            final(self).server_id == old(self).server_id,
            final(self).start_time_text == old(self).start_time_text,
            final(self).end_time_text == old(self).end_time_text,
            final(self).record_start_ms == old(self).record_start_ms,
    {
        match (self.stage, event) {
            (RecordStage::Ready, RecordEvent::Begin) => {
                if self.s3_enable {
                    self.stage = RecordStage::CheckingFile;
                    RecordAction::CheckFile
                } else {
                    self.local_relative_url = self.file.relative_url.clone();
                    self.stage = RecordStage::Notifying;
                    RecordAction::Notify
                }
            },
            (RecordStage::CheckingFile, RecordEvent::FileExists(exists)) => {
                if exists {
                    self.stage = RecordStage::Uploading;
                    RecordAction::Upload
                } else {
                    self.local_relative_url = self.file.relative_url.clone();
                    self.stage = RecordStage::Notifying;
                    RecordAction::Notify
                }
            },
            (RecordStage::Uploading, RecordEvent::Uploaded(u)) => match u {
                Some((access_url, channel_id)) => {
                    self.play_url = access_url;
                    self.s3_uploaded = true;
                    self.channel_id = Some(channel_id);
                    self.stage = RecordStage::Notifying;
                    RecordAction::Notify
                },
                None => {
                    self.local_relative_url = self.file.relative_url.clone();
                    if self.keep_on_failure {
                        self.stage = RecordStage::Notifying;
                        RecordAction::Notify
                    } else {
                        self.stage = RecordStage::RemovingAfterFailedUpload;
                        RecordAction::RemoveFile
                    }
                },
            },
            (RecordStage::RemovingAfterFailedUpload, RecordEvent::FileRemoved) => {
                self.stage = RecordStage::Notifying;
                RecordAction::Notify
            },
            (RecordStage::Notifying, RecordEvent::Notified(ok)) => {
                self.notify_ok = ok;
                if self.s3_uploaded && ok {
                    self.stage = RecordStage::CleaningUp;
                    RecordAction::RemoveUploaded
                } else if self.s3_uploaded {
                    self.stage = RecordStage::Done;
                    RecordAction::Finish(RecordOutcome::KeptAfterNotifyFailed)
                } else {
                    self.stage = RecordStage::Done;
                    RecordAction::Finish(RecordOutcome::Completed)
                }
            },
            (RecordStage::CleaningUp, RecordEvent::FileRemoved) => {
                self.stage = RecordStage::Done;
                RecordAction::Finish(RecordOutcome::Completed)
            },
            _ => RecordAction::Finish(RecordOutcome::UnexpectedEvent),
        }
    }
}

/// `{mgr_base}/api/internal/presign-record`, where the manager hands out
/// upload URLs.
pub fn presign_url(mgr_base: &str) -> (u: String)
    ensures
        u@ == mgr_base@ + "/api/internal/presign-record"@,
{
    let mut u = String::new();
    push_str(&mut u, mgr_base);
    push_str(&mut u, "/api/internal/presign-record");
    u
}

/// `{mgr_base}/api/internal/on-record-event`, where recordings are announced.
pub fn record_event_url(mgr_base: &str) -> (u: String)
    ensures
        u@ == mgr_base@ + "/api/internal/on-record-event"@,
{
    let mut u = String::new();
    push_str(&mut u, mgr_base);
    push_str(&mut u, "/api/internal/on-record-event");
    u
}

fn text_member(key: &str, value: &String) -> (m: (String, JsonValue))
    ensures
        m.0@ == key@,
        m.1 matches JsonValue::Str(s) && s@ == value@,
{
    (key.to_owned(), JsonValue::Str(value.clone()))
}

/// The body of the presign request: `stream`, `app`, `vhost`, `file_path`.
pub fn presign_request(file: &RecordFile) -> (b: JsonValue)
    ensures
        b matches JsonValue::Object(f) && f@.len() == 4 && has_str_member_at(
            f@,
            0,
            "stream"@,
            file.stream@,
        ) && has_str_member_at(f@, 1, "app"@, file.app@) && has_str_member_at(
            f@,
            2,
            "vhost"@,
            file.vhost@,
        ) && has_str_member_at(f@, 3, "file_path"@, file.file_path@),
{
    let mut f: Vec<(String, JsonValue)> = Vec::new();
    f.push(text_member("stream", &file.stream));
    f.push(text_member("app", &file.app));
    f.push(text_member("vhost", &file.vhost));
    f.push(text_member("file_path", &file.file_path));
    JsonValue::Object(f)
}

/// Where to put the recording and how it will be reached.
pub struct PresignedUpload {
    pub upload_url: String,
    pub access_url: String,
    /// The channel the manager found for the stream (empty when none).
    pub channel_id: String,
}

/// Why the manager's presign answer gives no upload.
pub enum PresignError {
    /// `code` is not 0; the manager's `msg`, or `unknown`.
    Rejected(String),
    /// No string `upload_url`.
    NoUploadUrl,
    /// No string `access_url`.
    NoAccessUrl,
}

/// The manager accepted the presign request.
pub open spec fn presign_accepted(resp: JsonValue) -> bool {
    match json_get(resp, "code"@) {
        Some(c) => json_i64(c) == Some(0i64),
        None => false,
    }
}

/// Reads the manager's presign answer: refused unless `code` is 0, then
/// `upload_url` and `access_url` must be strings; `channel_id` defaults to
/// empty.
pub fn parse_presign(resp: &JsonValue) -> (r: Result<PresignedUpload, PresignError>)
    ensures
        match r {
            Ok(u) => {
                &&& presign_accepted(*resp)
                &&& str_member(*resp, "upload_url"@) == Some(u.upload_url@)
                &&& str_member(*resp, "access_url"@) == Some(u.access_url@)
                &&& u.channel_id@ == str_or(*resp, "channel_id"@, ""@)
            },
            Err(PresignError::Rejected(msg)) => !presign_accepted(*resp) && msg@ == str_or(
                *resp,
                "msg"@,
                "unknown"@,
            ),
            Err(PresignError::NoUploadUrl) => presign_accepted(*resp) && str_member(
                *resp,
                "upload_url"@,
            ) is None,
            Err(PresignError::NoAccessUrl) => presign_accepted(*resp) && str_member(
                *resp,
                "upload_url"@,
            ) is Some && str_member(*resp, "access_url"@) is None,
        },
{
    let code = match resp.get("code") {
        Some(c) => c.as_i64(),
        None => None,
    };
    let accepted = match code {
        Some(c) => c == 0,
        None => false,
    };
    if !accepted {
        return Err(PresignError::Rejected(str_or_default(resp, "msg", "unknown")));
    }
    let upload_url = match resp.get("upload_url") {
        Some(m) => m.as_str(),
        None => None,
    };
    let upload_url = match upload_url {
        Some(u) => u,
        None => return Err(PresignError::NoUploadUrl),
    };
    let access_url = match resp.get("access_url") {
        Some(m) => m.as_str(),
        None => None,
    };
    let access_url = match access_url {
        Some(a) => a,
        None => return Err(PresignError::NoAccessUrl),
    };
    let channel_id = str_or_default(resp, "channel_id", "");
    Ok(PresignedUpload { upload_url, access_url, channel_id })
}

/// An HTTP status counts as success when it is in `200..=299`.
pub fn is_success_status(status: u16) -> (ok: bool)
    ensures
        ok == (200 <= status <= 299),
{
    200 <= status && status <= 299
}

/// The members the notification sets on top of the hook body.
pub open spec fn is_notify_key(k: Seq<char>) -> bool {
    ||| k == "play_url"@
    ||| k == "s3_uploaded"@
    ||| k == "relative_url"@
    ||| k == "node_id"@
    ||| k == "start_time"@
    ||| k == "end_time"@
    ||| k == "record_start_ms"@
    ||| k == "channel_id"@
}

impl RecordJob {
    /// The notification for the manager: the hook body with `play_url`,
    /// `s3_uploaded`, `relative_url`, `node_id`, `start_time` and `end_time`
    /// (rendered), `record_start_ms`, and `channel_id` when the upload gave
    /// one, set on top; every other member of the body is kept.
    pub fn notify_payload(&self, body: JsonValue) -> (p: JsonValue)
        requires
            body matches JsonValue::Object(_),
        ensures
            p matches JsonValue::Object(_),
            json_get(p, "play_url"@) == Some(JsonValue::Str(self.play_url)),
            json_get(p, "s3_uploaded"@) == Some(JsonValue::Bool(self.s3_uploaded)),
            json_get(p, "relative_url"@) == Some(JsonValue::Str(self.local_relative_url)),
            json_get(p, "node_id"@) == Some(JsonValue::Str(self.server_id)),
            json_get(p, "start_time"@) == Some(JsonValue::Str(self.start_time_text)),
            json_get(p, "end_time"@) == Some(JsonValue::Str(self.end_time_text)),
            json_get(p, "record_start_ms"@) == Some(
                JsonValue::Number(JsonNumber::Int(self.record_start_ms)),
            ),
            json_get(p, "channel_id"@) == match self.channel_id {
                Some(c) => Some(JsonValue::Str(c)),
                None => json_get(body, "channel_id"@),
            },
            forall|k: Seq<char>| !is_notify_key(k) ==> #[trigger] json_get(p, k) == json_get(body, k),
    {
        proof {
            reveal_strlit("play_url");
            reveal_strlit("s3_uploaded");
            reveal_strlit("relative_url");
            reveal_strlit("node_id");
            reveal_strlit("start_time");
            reveal_strlit("end_time");
            reveal_strlit("record_start_ms");
            reveal_strlit("channel_id");
        }
        let p1 = body.with_member("play_url".to_owned(), JsonValue::Str(self.play_url.clone()));
        let p2 = p1.with_member("s3_uploaded".to_owned(), JsonValue::Bool(self.s3_uploaded));
        let p3 = p2.with_member(
            "relative_url".to_owned(),
            JsonValue::Str(self.local_relative_url.clone()),
        );
        let p4 = p3.with_member("node_id".to_owned(), JsonValue::Str(self.server_id.clone()));
        let p5 = p4.with_member(
            "start_time".to_owned(),
            JsonValue::Str(self.start_time_text.clone()),
        );
        let p6 = p5.with_member("end_time".to_owned(), JsonValue::Str(self.end_time_text.clone()));
        let p7 = p6.with_member(
            "record_start_ms".to_owned(),
            JsonValue::Number(JsonNumber::Int(self.record_start_ms)),
        );
        proof {
            assert("play_url"@.len() == 8 && "play_url"@[0] == 'p');
            assert("s3_uploaded"@.len() == 11);
            assert("relative_url"@.len() == 12);
            assert("node_id"@.len() == 7);
            assert("start_time"@.len() == 10 && "start_time"@[0] == 's');
            assert("end_time"@.len() == 8 && "end_time"@[0] == 'e');
            assert("record_start_ms"@.len() == 15);
            assert("channel_id"@.len() == 10 && "channel_id"@[0] == 'c');
        }
        match &self.channel_id {
            Some(c) => p7.with_member("channel_id".to_owned(), JsonValue::Str(c.clone())),
            None => p7,
        }
    }
}

/// With S3 disabled, nothing is uploaded or removed: the manager is notified
/// with the local relative URL and the workflow ends.
pub proof fn law_s3_disabled_keeps_file(m: JobModel, ok: bool)
    requires
        m.stage == RecordStage::Ready,
        !m.s3_enable,
        !m.s3_uploaded,
    ensures
        record_step(m, RecordEventModel::Begin).1 == RecordAction::Notify,
        record_step(m, RecordEventModel::Begin).0.local_relative_url == m.relative_url,
        record_step(record_step(m, RecordEventModel::Begin).0, RecordEventModel::Notified(ok)).1
            == RecordAction::Finish(RecordOutcome::Completed),
{
}

/// The recording is removed only after a failed upload when failed files are
/// not kept, or after an upload that the manager was notified of.
pub proof fn law_removal_only_when_safe(m: JobModel, e: RecordEventModel)
    ensures
        record_step(m, e).1 == RecordAction::RemoveFile ==> !m.keep_on_failure && m.stage
            == RecordStage::Uploading && e == RecordEventModel::Uploaded(None),
        record_step(m, e).1 == RecordAction::RemoveUploaded ==> m.s3_uploaded && e
            == RecordEventModel::Notified(true),
{
}

/// What the notification reports is consistent: an uploaded recording has a
/// channel id and no local URL; one that was not uploaded has no play URL
/// and no channel id of the upload's, and once it is past the upload it
/// reports the hook's relative URL; before the upload nothing is set.
pub open spec fn record_inv(m: JobModel) -> bool {
    &&& (m.stage == RecordStage::Ready || m.stage == RecordStage::CheckingFile || m.stage
        == RecordStage::Uploading) ==> !m.s3_uploaded && m.local_relative_url.len() == 0
    &&& if m.s3_uploaded {
        m.local_relative_url.len() == 0 && m.channel_id is Some
    } else {
        m.play_url.len() == 0 && m.channel_id is None
    }
    &&& (m.stage == RecordStage::RemovingAfterFailedUpload || m.stage == RecordStage::Notifying
        || m.stage == RecordStage::Done) && !m.s3_uploaded ==> m.local_relative_url
        == m.relative_url
    &&& m.stage == RecordStage::CleaningUp ==> m.s3_uploaded
}

/// Every step keeps the notification consistent.
pub proof fn law_record_inv_kept(m: JobModel, e: RecordEventModel)
    requires
        record_inv(m),
    ensures
        record_inv(record_step(m, e).0),
{
}

/// A workflow ends well only after the manager was notified: `Done` is reached
/// only from the notification or from the clean-up that follows a successful
/// one, and the uploaded file is never left behind without a reason.
pub proof fn law_done_only_after_notify(m: JobModel, e: RecordEventModel)
    requires
        m.stage != RecordStage::Done,
    ensures
        record_step(m, e).0.stage == RecordStage::Done ==> m.stage == RecordStage::Notifying
            || m.stage == RecordStage::CleaningUp,
        record_step(m, e).0.stage == RecordStage::CleaningUp && m.stage != RecordStage::CleaningUp
            ==> m.stage == RecordStage::Notifying
            && m.s3_uploaded && e == RecordEventModel::Notified(true),
        record_step(m, e).1 == RecordAction::Finish(RecordOutcome::KeptAfterNotifyFailed) ==> m.stage
            == RecordStage::Notifying && m.s3_uploaded && e == RecordEventModel::Notified(false),
{
}

/// A failed upload reports the recording's local relative URL to the manager,
/// whether the file is kept or removed, and never a play URL.
pub proof fn law_failed_upload_reports_local_url(m: JobModel)
    requires
        m.stage == RecordStage::Uploading,
        record_inv(m),
    ensures
        record_step(m, RecordEventModel::Uploaded(None)).0.local_relative_url == m.relative_url,
        !record_step(m, RecordEventModel::Uploaded(None)).0.s3_uploaded,
        record_step(m, RecordEventModel::Uploaded(None)).0.play_url.len() == 0,
        m.keep_on_failure ==> record_step(m, RecordEventModel::Uploaded(None)).1
            == RecordAction::Notify,
        !m.keep_on_failure ==> record_step(m, RecordEventModel::Uploaded(None)).1
            == RecordAction::RemoveFile,
{
}

/// A successful upload reports the object's access URL and channel id, and
/// no local URL.
pub proof fn law_upload_reports_access_url(m: JobModel, access_url: Seq<char>, channel_id: Seq<char>)
    requires
        m.stage == RecordStage::Uploading,
        record_inv(m),
    ensures
        record_step(m, RecordEventModel::Uploaded(Some((access_url, channel_id)))).0.play_url
            == access_url,
        record_step(m, RecordEventModel::Uploaded(Some((access_url, channel_id)))).0.channel_id
            == Some(channel_id),
        record_step(m, RecordEventModel::Uploaded(Some((access_url, channel_id)))).0.s3_uploaded,
        record_step(
            m,
            RecordEventModel::Uploaded(Some((access_url, channel_id))),
        ).0.local_relative_url.len() == 0,
        record_step(m, RecordEventModel::Uploaded(Some((access_url, channel_id)))).1
            == RecordAction::Notify,
{
}

/// The node id of a recording comes from the hook body when it has a
/// non-empty `mediaServerId`, else from the shared cache, else from the
/// configured `SERVER_ID`, empty ones skipped; with none of them there is
/// no id.
pub proof fn law_hook_server_id_priority(
    body: JsonValue,
    held: Option<Seq<char>>,
    fallback: Option<Seq<char>>,
    id: Seq<char>,
)
    ensures
        str_member(body, "mediaServerId"@) == Some(id) && id.len() > 0 ==> hook_server_id_spec(
            body,
            held,
            fallback,
        ) == Some(id),
        !non_empty(str_member(body, "mediaServerId"@)) && held == Some(id) && id.len() > 0
            ==> hook_server_id_spec(body, held, fallback) == Some(id),
        !non_empty(str_member(body, "mediaServerId"@)) && !non_empty(held) && fallback == Some(id)
            && id.len() > 0 ==> hook_server_id_spec(body, held, fallback) == Some(id),
        !non_empty(str_member(body, "mediaServerId"@)) && !non_empty(held) && !non_empty(fallback)
            ==> hook_server_id_spec(body, held, fallback) is None,
{
}

} // verus!
