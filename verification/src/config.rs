//! The agent's configuration, its documented defaults and the checks made
//! before start-up.
use vstd::prelude::*;

verus! {

/// Everything the agent is configured with (from the environment).
pub struct Config {
    /// Fallback node id, used only while `mediaServerId` is unknown.
    pub server_id: Option<String>,
    pub api_base: String,
    pub secret: String,
    pub mgr_url: String,
    /// The node token in clear; only its hash is ever sent.
    pub node_token: String,
    /// Optional static salt: the token hash becomes keyed BLAKE3.
    pub node_token_salt: Option<String>,
    pub custom_ip: Option<String>,
    pub interface: Option<String>,
    pub zlm_http_port: u16,
    pub use_https: bool,
    pub report_interval_secs: u64,
    pub ip_refresh_interval_secs: u64,
    pub static_base: Option<String>,
    pub tls_accept_invalid_certs: bool,
    pub enable_rtc_extern_ip_update: bool,
    pub http_fmp4_base: Option<String>,
    pub ip_echo_api: Option<String>,
    pub tunnel_enable: bool,
    pub tunnel_local_addr: String,
    pub tunnel_remote_addr: String,
    pub tunnel_server_name: String,
    pub tunnel_ca_cert: Option<String>,
    pub tunnel_client_cert: Option<String>,
    pub tunnel_client_key: Option<String>,
    pub tunnel_max_connections: usize,
    pub tunnel_idle_timeout_secs: u64,
    pub tunnel_connect_timeout_secs: u64,
    pub tunnel_retry_delay_secs: u64,
    pub tunnel_max_retry_delay_secs: u64,
    pub tunnel_buffer_size: usize,
    pub tunnel_disable_tls_resumption: bool,
    pub record_hook_enable: bool,
    pub hook_listen: String,
    pub mgr_base: String,
    pub record_keep_on_failure: bool,
    pub record_hook_sync_interval_secs: u64,
    pub record_s3_enable: bool,
}

/// Default `API_BASE`.
pub fn default_api_base() -> (s: String)
    ensures
        s@ == "http://127.0.0.1:9080"@,
{
    "http://127.0.0.1:9080".to_owned()
}

/// `SECRET` has no default: unset, it is empty, and `check_config` refuses
/// the configuration.
pub fn default_secret() -> (s: String)
    ensures
        s@.len() == 0,
{
    String::new()
}

/// Default `MGR_URL`.
pub fn default_mgr_url() -> (s: String)
    ensures
        s@ == "http://127.0.0.1:3002/api/zlm/report-status"@,
{
    "http://127.0.0.1:3002/api/zlm/report-status".to_owned()
}

/// Default `ZLM_HTTP_PORT`.
pub fn default_zlm_http_port() -> (p: u16)
    ensures
        p == 9080,
{
    9080
}

/// Default `REPORT_INTERVAL_SECS`.
pub fn default_report_interval() -> (n: u64)
    ensures
        n == 30,
{
    30
}

/// Default `IP_REFRESH_INTERVAL_SECS`.
pub fn default_ip_refresh_interval() -> (n: u64)
    ensures
        n == 5,
{
    5
}

/// Default `ENABLE_RTC_EXTERN_IP_UPDATE`.
pub fn default_enable_rtc() -> (b: bool)
    ensures
        b,
{
    true
}

/// Default `TUNNEL_LOCAL_ADDR`.
pub fn default_tunnel_local_addr() -> (s: String)
    ensures
        s@ == "127.0.0.1:18080"@,
{
    "127.0.0.1:18080".to_owned()
}

/// Default `TUNNEL_SERVER_NAME`.
pub fn default_tunnel_server_name() -> (s: String)
    ensures
        s@ == "tunnel.example.com"@,
{
    "tunnel.example.com".to_owned()
}

/// Default `TUNNEL_MAX_CONNECTIONS`.
pub fn default_tunnel_max_connections() -> (n: usize)
    ensures
        n == 100,
{
    100
}

/// Default `TUNNEL_IDLE_TIMEOUT_SECS`.
pub fn default_tunnel_idle_timeout_secs() -> (n: u64)
    ensures
        n == 300,
{
    300
}

/// Default `TUNNEL_CONNECT_TIMEOUT_SECS`.
pub fn default_tunnel_connect_timeout_secs() -> (n: u64)
    ensures
        n == 10,
{
    10
}

/// Default `TUNNEL_RETRY_DELAY_SECS`.
pub fn default_tunnel_retry_delay_secs() -> (n: u64)
    ensures
        n == 2,
{
    2
}

/// Default `TUNNEL_MAX_RETRY_DELAY_SECS`.
pub fn default_tunnel_max_retry_delay_secs() -> (n: u64)
    ensures
        n == 30,
{
    30
}

/// Default `TUNNEL_BUFFER_SIZE`: 64 KiB.
pub fn default_tunnel_buffer_size() -> (n: usize)
    ensures
        n == 64 * 1024,
{
    64 * 1024
}

/// Default `HOOK_LISTEN`.
pub fn default_hook_listen() -> (s: String)
    ensures
        s@ == "127.0.0.1:3004"@,
{
    "127.0.0.1:3004".to_owned()
}

/// Default `MGR_BASE`.
pub fn default_mgr_base() -> (s: String)
    ensures
        s@ == "http://127.0.0.1:3002"@,
{
    "http://127.0.0.1:3002".to_owned()
}

/// Default `RECORD_KEEP_ON_FAILURE`.
pub fn default_record_keep_on_failure() -> (b: bool)
    ensures
        b,
{
    true
}

/// Default `RECORD_HOOK_SYNC_INTERVAL_SECS`.
pub fn default_record_hook_sync_interval() -> (n: u64)
    ensures
        n == 60,
{
    60
}

/// Default `RECORD_S3_ENABLE`.
pub fn default_record_s3_enable() -> (b: bool)
    ensures
        !b,
{
    false
}

/// A configuration the agent refuses to start with.
#[derive(Debug, Clone, Copy, PartialEq, Eq, Structural)]
pub enum ConfigError {
    /// `SECRET` is unset or empty.
    SecretMissing,
    /// The tunnel is enabled but `TUNNEL_REMOTE_ADDR` is empty.
    TunnelRemoteAddrMissing,
}

/// Checks made before the services start: `SECRET` is required, and an
/// enabled tunnel needs a remote address.
pub fn check_config(config: &Config) -> (r: Result<(), ConfigError>)
    ensures
        r is Err <==> config.secret@.len() == 0 || (config.tunnel_enable
            && config.tunnel_remote_addr@.len() == 0),
        r == Err::<(), ConfigError>(ConfigError::SecretMissing) <==> config.secret@.len() == 0,
        r == Err::<(), ConfigError>(ConfigError::TunnelRemoteAddrMissing) <==> config.secret@.len()
            > 0 && config.tunnel_enable && config.tunnel_remote_addr@.len() == 0,
{
    if config.secret.as_str().is_empty() {
        Err(ConfigError::SecretMissing)
    } else if config.tunnel_enable && config.tunnel_remote_addr.as_str().is_empty() {
        Err(ConfigError::TunnelRemoteAddrMissing)
    } else {
        Ok(())
    }
}

} // verus!
