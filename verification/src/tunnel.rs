//! The TLS tunnel's decisions: its settings, the retry schedule of the remote
//! connection, the reconnect loop that keeps what the client already sent,
//! and the byte count of a forwarded connection with its idle timeout. The
//! caller does the socket work and hands back what happened.
use vstd::prelude::*;

use crate::config::Config;
use crate::text::push_str;

verus! {

/// The tunnel's settings as plain values.
pub struct TunnelSettings {
    pub local_addr: String,
    pub remote_addr: String,
    pub server_name: String,
    /// At most this many connections at once; `None` for no limit.
    pub max_connections: Option<usize>,
    /// Close a connection idle this many seconds; `None` for never.
    pub idle_timeout_secs: Option<u64>,
    pub connect_timeout_secs: u64,
    pub retry_delay_secs: u64,
    pub max_retry_delay_secs: u64,
    pub buffer_size: usize,
    /// The token sent first on every remote connection, if any.
    pub auth_token: Option<String>,
}

/// A limit of zero means no limit.
pub open spec fn limit_of(n: usize) -> Option<usize> {
    if n == 0 {
        None
    } else {
        Some(n)
    }
}

/// An idle timeout of zero seconds means none.
pub open spec fn idle_timeout_of(secs: u64) -> Option<u64> {
    if secs == 0 {
        None
    } else {
        Some(secs)
    }
}

/// An auth token is used only when it is not empty.
pub open spec fn auth_token_of(token: Option<Seq<char>>) -> Option<Seq<char>> {
    match token {
        Some(t) => if t.len() > 0 {
            Some(t)
        } else {
            None
        },
        None => None,
    }
}

/// The tunnel settings taken from the configuration and the
/// `TUNNEL_AUTH_TOKEN` value.
pub fn tunnel_settings(config: &Config, auth_token: Option<String>) -> (t: TunnelSettings)
    ensures
        t.local_addr@ == config.tunnel_local_addr@,
        t.remote_addr@ == config.tunnel_remote_addr@,
        t.server_name@ == config.tunnel_server_name@,
        t.max_connections == limit_of(config.tunnel_max_connections),
        t.idle_timeout_secs == idle_timeout_of(config.tunnel_idle_timeout_secs),
        t.connect_timeout_secs == config.tunnel_connect_timeout_secs,
        t.retry_delay_secs == config.tunnel_retry_delay_secs,
        t.max_retry_delay_secs == config.tunnel_max_retry_delay_secs,
        t.buffer_size == config.tunnel_buffer_size,
        match t.auth_token {
            Some(s) => auth_token_of(
                match auth_token {
                    Some(a) => Some(a@),
                    None => None,
                },
            ) == Some(s@),
            None => auth_token_of(
                match auth_token {
                    Some(a) => Some(a@),
                    None => None,
                },
            ) is None,
        },
{
    let max_connections = if config.tunnel_max_connections == 0 {
        None
    } else {
        Some(config.tunnel_max_connections)
    };
    let idle_timeout_secs = if config.tunnel_idle_timeout_secs == 0 {
        None
    } else {
        Some(config.tunnel_idle_timeout_secs)
    };
    let auth_token = match auth_token {
        Some(t) => if t.as_str().is_empty() {
            None
        } else {
            Some(t)
        },
        None => None,
    };
    TunnelSettings {
        local_addr: config.tunnel_local_addr.clone(),
        remote_addr: config.tunnel_remote_addr.clone(),
        server_name: config.tunnel_server_name.clone(),
        max_connections,
        idle_timeout_secs,
        connect_timeout_secs: config.tunnel_connect_timeout_secs,
        retry_delay_secs: config.tunnel_retry_delay_secs,
        max_retry_delay_secs: config.tunnel_max_retry_delay_secs,
        buffer_size: config.tunnel_buffer_size,
        auth_token,
    }
}

/// Whether one more connection may be taken while `active` are open.
pub fn admit_connection(limit: Option<usize>, active: usize) -> (ok: bool)
    ensures
        ok == match limit {
            Some(n) => active < n,
            None => true,
        },
{
    match limit {
        Some(n) => active < n,
        None => true,
    }
}

/// The tunnel's count of connections being handled.
#[derive(Debug, Clone, Copy, PartialEq, Eq, Structural)]
pub struct ConnectionSlots {
    /// At most this many at once; `None` for no limit (then nothing is
    /// counted).
    pub limit: Option<usize>,
    /// Connections admitted and not yet released.
    pub active: usize,
}

/// Never more connections are active than the limit allows.
pub open spec fn slots_inv(s: ConnectionSlots) -> bool {
    match s.limit {
        Some(n) => s.active <= n,
        None => s.active == 0,
    }
}

/// Admitting a connection: taken (and counted) while fewer than the limit
/// are active, refused otherwise; always taken without a limit.
pub open spec fn admit_step(s: ConnectionSlots) -> (ConnectionSlots, bool) {
    match s.limit {
        Some(n) => if s.active < n {
            (ConnectionSlots { active: (s.active + 1) as usize, ..s }, true)
        } else {
            (s, false)
        },
        None => (s, true),
    }
}

/// Releasing a connection that ended.
pub open spec fn release_step(s: ConnectionSlots) -> ConnectionSlots {
    if s.limit is Some && s.active > 0 {
        ConnectionSlots { active: (s.active - 1) as usize, ..s }
    } else {
        s
    }
}

impl ConnectionSlots {
    /// No connection active yet.
    pub fn new(limit: Option<usize>) -> (s: ConnectionSlots)
        ensures
            s == (ConnectionSlots { limit, active: 0 }),
    {
        ConnectionSlots { limit, active: 0 }
    }

    /// Admits a new connection, or refuses it when the limit is reached.
    pub fn try_admit(&mut self) -> (ok: bool)
        ensures
            (*final(self), ok) == admit_step(*old(self)),
    {
        if self.limit.is_none() {
            return true;
        }
        if admit_connection(self.limit, self.active) {
            self.active = self.active + 1;
            true
        } else {
            false
        }
    }

    /// Releases a connection that was admitted.
    pub fn release(&mut self)
        ensures
            *final(self) == release_step(*old(self)),
    {
        if self.limit.is_some() && self.active > 0 {
            self.active = self.active - 1;
        }
    }
}

/// With a limit of `n`, at no time are more than `n` connections active: a
/// fresh count keeps the bound, every admission and release keeps it, a
/// connection is refused exactly when `n` are active, and without a limit
/// every connection is taken.
pub proof fn law_slots_never_exceed_limit(s: ConnectionSlots, limit: Option<usize>)
    requires
        slots_inv(s),
    ensures
        slots_inv(ConnectionSlots { limit, active: 0 }),
        slots_inv(admit_step(s).0),
        slots_inv(release_step(s)),
        s.limit matches Some(n) ==> (!admit_step(s).1 <==> s.active == n),
        s.limit is None ==> admit_step(s).1,
        admit_step(s).1 && s.limit is Some ==> admit_step(s).0.active == s.active + 1,
{
}

/// The line that authenticates the tunnel: the token and a newline.
pub fn auth_line(token: &str) -> (l: String)
    ensures
        l@ == token@ + "\n"@,
{
    let mut l = String::new();
    push_str(&mut l, token);
    push_str(&mut l, "\n");
    l
}

/// `2^n`.
pub open spec fn power_of_two(n: nat) -> nat
    decreases n,
{
    if n == 0 {
        1
    } else {
        2 * power_of_two((n - 1) as nat)
    }
}

proof fn lemma_power_of_two_grows(i: nat, j: nat)
    requires
        i <= j,
    ensures
        1 <= power_of_two(i) <= power_of_two(j),
    decreases j,
{
    if j > 0 {
        if i == j {
            lemma_power_of_two_grows((i - 1) as nat, (j - 1) as nat);
        } else {
            lemma_power_of_two_grows(i, (j - 1) as nat);
        }
    }
}

/// How often the delay has doubled by failed attempt number `attempt`: not at
/// all after the first.
pub open spec fn doublings(attempt: nat) -> nat {
    if attempt == 0 {
        0
    } else if attempt >= 6 {
        5
    } else {
        (attempt - 1) as nat
    }
}

/// The wait after failed attempt number `attempt` (counted from 1): the
/// initial delay after the first, doubled after each later one up to five
/// times (32 times the initial delay), at most `max`.
pub open spec fn retry_delay(base: nat, attempt: nat, max: nat) -> nat {
    let d = base * power_of_two(doublings(attempt));
    if d < max {
        d
    } else {
        max
    }
}

/// The wait before the next connection attempt.
pub fn retry_delay_secs(base: u64, attempt: u64, max: u64) -> (d: u64)
    ensures
        d == retry_delay(base as nat, attempt as nat, max as nat),
{
    let mut d = base;
    let mut i: u64 = 1;
    proof {
        assert(power_of_two(0) == 1);
        assert(base * 1 == base) by (nonlinear_arith);
    }
    while i < attempt && i < 6 && d > 0 && d < max
        invariant
            1 <= i <= 6,
            i <= attempt || i == 1,
            d == 0 ==> base == 0,
            d < max ==> d == base * power_of_two((i - 1) as nat),
            d >= max ==> base * power_of_two((i - 1) as nat) >= max,
        decreases attempt - i,
    {
        proof {
            let x = power_of_two((i - 1) as nat);
            assert(power_of_two(i as nat) == 2 * x);
            assert(base * (2 * x) == 2 * (base * x)) by (nonlinear_arith);
        }
        if d > max / 2 {
            d = max;
        } else {
            d = d * 2;
        }
        i = i + 1;
    }
    proof {
        let k = doublings(attempt as nat);
        assert(i - 1 <= k);
        lemma_power_of_two_grows((i - 1) as nat, k);
        let x = power_of_two((i - 1) as nat);
        let y = power_of_two(k);
        assert(base * x <= base * y) by (nonlinear_arith)
            requires
                x <= y,
        ;
        if d == 0 {
            assert(base * y == 0) by (nonlinear_arith)
                requires
                    base == 0,
            ;
        }
    }
    if d < max {
        d
    } else {
        max
    }
}

/// The first wait is the initial delay (at most the maximum); each of the
/// next five waits doubles the one before until the maximum is reached, and
/// from the sixth on the wait stays the same; no wait exceeds the maximum,
/// and none is shorter than the one before.
pub proof fn law_retry_delay_bounded(base: nat, max: nat, a1: nat, a2: nat)
    ensures
        retry_delay(base, 1, max) == if base < max {
            base
        } else {
            max
        },
        retry_delay(base, a1, max) <= max,
        a1 <= a2 ==> retry_delay(base, a1, max) <= retry_delay(base, a2, max),
        1 <= a1 <= 5 && 2 * retry_delay(base, a1, max) < max ==> retry_delay(base, a1 + 1, max)
            == 2 * retry_delay(base, a1, max),
        a1 >= 6 ==> retry_delay(base, a1, max) == retry_delay(base, 6, max),
{
    assert(power_of_two(0) == 1);
    assert(base * 1 == base) by (nonlinear_arith);
    if a1 <= a2 {
        lemma_power_of_two_grows(doublings(a1), doublings(a2));
        let x = power_of_two(doublings(a1));
        let y = power_of_two(doublings(a2));
        assert(base * x <= base * y) by (nonlinear_arith)
            requires
                x <= y,
        ;
    }
    if 1 <= a1 <= 5 {
        let x = power_of_two(doublings(a1));
        lemma_power_of_two_grows(0, doublings(a1));
        assert(power_of_two(doublings(a1 + 1)) == 2 * x);
        assert(base * (2 * x) == 2 * (base * x)) by (nonlinear_arith);
    }
}

/// Where the connection to the remote end stands.
#[derive(Debug, Clone, Copy, PartialEq, Eq, Structural)]
pub enum ConnectPhase {
    /// Not started.
    Ready,
    /// Taking in what the client has sent so far, before an attempt.
    ReadingClient,
    /// An attempt to connect is under way.
    Connecting,
    /// Waiting out the retry delay (or for shutdown, or client data).
    Waiting,
    /// Taking in client data that arrived during the wait.
    ReadingDuringWait,
    /// Connected.
    Established,
    /// Given up.
    Failed,
}

/// Why the connection was given up.
#[derive(Debug, Clone, Copy, PartialEq, Eq, Structural)]
pub enum ConnectFailure {
    /// The client closed before any attempt went through.
    ClientClosedBeforeConnect,
    /// The client closed while the tunnel waited to retry.
    ClientClosed,
    /// The tunnel is shutting down.
    Shutdown,
}

/// What the caller reports.
pub enum ConnectEvent {
    Start,
    /// The client sent these bytes.
    ClientData(Vec<u8>),
    /// Nothing more to read from the client for now.
    ClientDrained,
    /// The client closed its side.
    ClientClosed,
    /// Whether the attempt connected (a failure and a timeout count alike).
    Attempted(bool),
    /// The retry delay ran out.
    DelayElapsed,
    /// The client can be read during the wait.
    ClientReadable,
    /// Shutdown was requested during the wait.
    ShutdownRequested,
}

/// What the caller is asked to do.
#[derive(Debug, Clone, Copy, PartialEq, Eq, Structural)]
pub enum ConnectAction {
    /// Read what the client has sent, without waiting.
    ReadClient,
    /// Try to connect to the remote end, within the connect timeout.
    Connect,
    /// Wait this many seconds, or for shutdown, or for client data.
    Wait(u64),
    /// Connected: send the auth line (when there is one), then the early
    /// data, then forward.
    Forward,
    /// Give up.
    Abort(ConnectFailure),
    /// The event does not fit the phase; nothing to do.
    Ignore,
}

/// The reconnect loop of one tunnelled connection.
pub struct RemoteConnect {
    pub phase: ConnectPhase,
    /// Attempts started so far.
    pub attempt: u64,
    /// Everything the client sent before the remote end was reached.
    pub early_data: Vec<u8>,
    pub retry_delay_secs: u64,
    pub max_retry_delay_secs: u64,
}

/// The loop's state with the early data as a sequence.
pub struct ConnectModel {
    pub phase: ConnectPhase,
    pub attempt: u64,
    pub early_data: Seq<u8>,
    pub retry_delay_secs: u64,
    pub max_retry_delay_secs: u64,
}

pub enum ConnectEventModel {
    Start,
    ClientData(Seq<u8>),
    ClientDrained,
    ClientClosed,
    Attempted(bool),
    DelayElapsed,
    ClientReadable,
    ShutdownRequested,
}

pub open spec fn connect_model(c: RemoteConnect) -> ConnectModel {
    ConnectModel {
        phase: c.phase,
        attempt: c.attempt,
        early_data: c.early_data@,
        retry_delay_secs: c.retry_delay_secs,
        max_retry_delay_secs: c.max_retry_delay_secs,
    }
}

pub open spec fn connect_event_model(e: ConnectEvent) -> ConnectEventModel {
    match e {
        ConnectEvent::Start => ConnectEventModel::Start,
        ConnectEvent::ClientData(d) => ConnectEventModel::ClientData(d@),
        ConnectEvent::ClientDrained => ConnectEventModel::ClientDrained,
        ConnectEvent::ClientClosed => ConnectEventModel::ClientClosed,
        ConnectEvent::Attempted(ok) => ConnectEventModel::Attempted(ok),
        ConnectEvent::DelayElapsed => ConnectEventModel::DelayElapsed,
        ConnectEvent::ClientReadable => ConnectEventModel::ClientReadable,
        ConnectEvent::ShutdownRequested => ConnectEventModel::ShutdownRequested,
    }
}

/// One step of the reconnect loop. Each attempt first takes in whatever the
/// client has sent (a closed client ends the loop), then connects; after a
/// failure it waits `retry_delay` for that attempt, unless shutdown comes
/// first or the client sends more, which is taken in before the next
/// attempt. The client's bytes are kept in order until the remote end is
/// reached.
pub open spec fn connect_step(m: ConnectModel, e: ConnectEventModel) -> (ConnectModel, ConnectAction) {
    let next_attempt = ConnectModel {
        phase: ConnectPhase::ReadingClient,
        attempt: m.attempt.wrapping_add(1),
        ..m
    };
    match (m.phase, e) {
        (ConnectPhase::Ready, ConnectEventModel::Start) => (next_attempt, ConnectAction::ReadClient),
        (ConnectPhase::ReadingClient, ConnectEventModel::ClientData(d)) => (
            ConnectModel { early_data: m.early_data + d, ..m },
            ConnectAction::ReadClient,
        ),
        (ConnectPhase::ReadingClient, ConnectEventModel::ClientDrained) => (
            ConnectModel { phase: ConnectPhase::Connecting, ..m },
            ConnectAction::Connect,
        ),
        (ConnectPhase::ReadingClient, ConnectEventModel::ClientClosed) => (
            ConnectModel { phase: ConnectPhase::Failed, ..m },
            ConnectAction::Abort(ConnectFailure::ClientClosedBeforeConnect),
        ),
        (ConnectPhase::Connecting, ConnectEventModel::Attempted(ok)) => if ok {
            (ConnectModel { phase: ConnectPhase::Established, ..m }, ConnectAction::Forward)
        } else {
            (
                ConnectModel { phase: ConnectPhase::Waiting, ..m },
                ConnectAction::Wait(
                    retry_delay(
                        m.retry_delay_secs as nat,
                        m.attempt as nat,
                        m.max_retry_delay_secs as nat,
                    ) as u64,
                ),
            )
        },
        (ConnectPhase::Waiting, ConnectEventModel::ShutdownRequested) => (
            ConnectModel { phase: ConnectPhase::Failed, ..m },
            ConnectAction::Abort(ConnectFailure::Shutdown),
        ),
        (ConnectPhase::Waiting, ConnectEventModel::DelayElapsed) => (
            next_attempt,
            ConnectAction::ReadClient,
        ),
        (ConnectPhase::Waiting, ConnectEventModel::ClientReadable) => (
            ConnectModel { phase: ConnectPhase::ReadingDuringWait, ..m },
            ConnectAction::ReadClient,
        ),
        (ConnectPhase::ReadingDuringWait, ConnectEventModel::ClientData(d)) => (
            ConnectModel { early_data: m.early_data + d, ..m },
            ConnectAction::ReadClient,
        ),
        (ConnectPhase::ReadingDuringWait, ConnectEventModel::ClientDrained) => (
            next_attempt,
            ConnectAction::ReadClient,
        ),
        (ConnectPhase::ReadingDuringWait, ConnectEventModel::ClientClosed) => (
            ConnectModel { phase: ConnectPhase::Failed, ..m },
            ConnectAction::Abort(ConnectFailure::ClientClosed),
        ),
        _ => (m, ConnectAction::Ignore),
    }
}

impl RemoteConnect {
    /// A loop that has not started, with the tunnel's retry settings.
    pub fn new(retry_delay_secs: u64, max_retry_delay_secs: u64) -> (c: RemoteConnect)
        ensures
            connect_model(c) == (ConnectModel {
                phase: ConnectPhase::Ready,
                attempt: 0,
                early_data: Seq::empty(),
                retry_delay_secs,
                max_retry_delay_secs,
            }),
    {
        RemoteConnect {
            phase: ConnectPhase::Ready,
            attempt: 0,
            early_data: Vec::new(),
            retry_delay_secs,
            max_retry_delay_secs,
        }
    }

    /// Advances the loop by one event and says what to do next.
    pub fn step(&mut self, event: ConnectEvent) -> (a: ConnectAction)
        ensures
            (connect_model(*final(self)), a) == connect_step(
                connect_model(*old(self)),
                connect_event_model(event),
            ),
    {
        match (self.phase, event) {
            (ConnectPhase::Ready, ConnectEvent::Start) => {
                self.attempt = self.attempt.wrapping_add(1);
                self.phase = ConnectPhase::ReadingClient;
                ConnectAction::ReadClient
            },
            (ConnectPhase::ReadingClient, ConnectEvent::ClientData(d)) => {
                self.take_in(d);
                ConnectAction::ReadClient
            },
            (ConnectPhase::ReadingClient, ConnectEvent::ClientDrained) => {
                self.phase = ConnectPhase::Connecting;
                ConnectAction::Connect
            },
            (ConnectPhase::ReadingClient, ConnectEvent::ClientClosed) => {
                self.phase = ConnectPhase::Failed;
                ConnectAction::Abort(ConnectFailure::ClientClosedBeforeConnect)
            },
            (ConnectPhase::Connecting, ConnectEvent::Attempted(ok)) => {
                if ok {
                    self.phase = ConnectPhase::Established;
                    ConnectAction::Forward
                } else {
                    let d = retry_delay_secs(
                        self.retry_delay_secs,
                        self.attempt,
                        self.max_retry_delay_secs,
                    );
                    self.phase = ConnectPhase::Waiting;
                    ConnectAction::Wait(d)
                }
            },
            (ConnectPhase::Waiting, ConnectEvent::ShutdownRequested) => {
                self.phase = ConnectPhase::Failed;
                ConnectAction::Abort(ConnectFailure::Shutdown)
            },
            (ConnectPhase::Waiting, ConnectEvent::DelayElapsed) => {
                self.attempt = self.attempt.wrapping_add(1);
                self.phase = ConnectPhase::ReadingClient;
                ConnectAction::ReadClient
            },
            (ConnectPhase::Waiting, ConnectEvent::ClientReadable) => {
                self.phase = ConnectPhase::ReadingDuringWait;
                ConnectAction::ReadClient
            },
            (ConnectPhase::ReadingDuringWait, ConnectEvent::ClientData(d)) => {
                self.take_in(d);
                ConnectAction::ReadClient
            },
            (ConnectPhase::ReadingDuringWait, ConnectEvent::ClientDrained) => {
                self.attempt = self.attempt.wrapping_add(1);
                self.phase = ConnectPhase::ReadingClient;
                ConnectAction::ReadClient
            },
            (ConnectPhase::ReadingDuringWait, ConnectEvent::ClientClosed) => {
                self.phase = ConnectPhase::Failed;
                ConnectAction::Abort(ConnectFailure::ClientClosed)
            },
            _ => ConnectAction::Ignore,
        }
    }

    fn take_in(&mut self, d: Vec<u8>)
        ensures
            final(self).early_data@ == old(self).early_data@ + d@,
            final(self).phase == old(self).phase,
            final(self).attempt == old(self).attempt,
            final(self).retry_delay_secs == old(self).retry_delay_secs,
            final(self).max_retry_delay_secs == old(self).max_retry_delay_secs,
    {
        let mut i: usize = 0;
        while i < d.len()
            invariant
                i <= d@.len(),
                self.early_data@ == old(self).early_data@ + d@.subrange(0, i as int),
                self.phase == old(self).phase,
                self.attempt == old(self).attempt,
                self.retry_delay_secs == old(self).retry_delay_secs,
                self.max_retry_delay_secs == old(self).max_retry_delay_secs,
            decreases d@.len() - i,
        {
            self.early_data.push(d[i]);
            i = i + 1;
            assert(d@.subrange(0, i as int) =~= d@.subrange(0, i - 1).push(d@[i - 1]));
        }
        assert(d@.subrange(0, d@.len() as int) =~= d@);
    }
}

/// No client byte is dropped or reordered before the remote end is reached:
/// every step keeps the early data as a prefix, and data read from the
/// client is appended as it came.
pub proof fn law_early_data_kept(m: ConnectModel, e: ConnectEventModel)
    ensures
        connect_step(m, e).0.early_data.take(m.early_data.len() as int) == m.early_data,
        e matches ConnectEventModel::ClientData(d) ==> ((m.phase == ConnectPhase::ReadingClient
            || m.phase == ConnectPhase::ReadingDuringWait) ==> connect_step(m, e).0.early_data
            == m.early_data + d),
{
    assert(connect_step(m, e).0.early_data.take(m.early_data.len() as int) =~= m.early_data);
}

/// A failed attempt is always followed by a wait of at most the maximum
/// delay, and the loop gives up only on a closed client or on shutdown.
pub proof fn law_failed_attempt_waits(m: ConnectModel, e: ConnectEventModel)
    ensures
        m.phase == ConnectPhase::Connecting && e == ConnectEventModel::Attempted(false) ==> (
        connect_step(m, e).1 matches ConnectAction::Wait(d) && d <= m.max_retry_delay_secs),
        connect_step(m, e).1 matches ConnectAction::Abort(f) ==> (f == ConnectFailure::Shutdown
            <==> e == ConnectEventModel::ShutdownRequested) && (f != ConnectFailure::Shutdown
            ==> e == ConnectEventModel::ClientClosed),
{
    law_retry_delay_bounded(
        m.retry_delay_secs as nat,
        m.max_retry_delay_secs as nat,
        m.attempt as nat,
        m.attempt as nat,
    );
}

/// Why forwarding stopped.
#[derive(Debug, Clone, Copy, PartialEq, Eq, Structural)]
pub enum CopyEnd {
    /// The client closed; the remote side was shut down.
    ClientClosed,
    /// The remote end closed; the client side was shut down.
    RemoteClosed,
    /// Nothing moved for the idle timeout.
    IdleTimeout,
}

/// What happened on a forwarded connection.
#[derive(Debug, Clone, Copy, PartialEq, Eq, Structural)]
pub enum CopyEvent {
    /// The client sent this many bytes (0: it closed).
    FromClient(usize),
    /// The remote end sent this many bytes (0: it closed).
    FromRemote(usize),
    /// The idle timeout ran out.
    Idle,
}

/// What to do about it.
#[derive(Debug, Clone, Copy, PartialEq, Eq, Structural)]
pub enum CopyAction {
    /// Write the bytes just read from the client to the remote end.
    WriteRemote(usize),
    /// Write the bytes just read from the remote end to the client.
    WriteClient(usize),
    /// Shut the remote side down and end with the byte count.
    ShutdownRemote,
    /// Shut the client side down and end with the byte count.
    ShutdownClient,
    /// End with the idle-timeout error.
    TimedOut,
    /// Forwarding is over; nothing to do.
    Ignore,
}

/// The byte count of a forwarded connection.
#[derive(Debug, Clone, Copy, PartialEq, Eq, Structural)]
pub struct CopyState {
    /// Bytes forwarded both ways (wrapping at `u64`).
    pub total: u64,
    /// How forwarding ended, once it has.
    pub end: Option<CopyEnd>,
}

/// One step of forwarding: each read is written to the other side and
/// counted; a read of zero bytes shuts the other side down; the idle
/// timeout ends it with an error.
pub open spec fn copy_step(s: CopyState, e: CopyEvent) -> (CopyState, CopyAction) {
    if s.end is Some {
        (s, CopyAction::Ignore)
    } else {
        match e {
            CopyEvent::FromClient(n) => if n == 0 {
                (CopyState { end: Some(CopyEnd::ClientClosed), ..s }, CopyAction::ShutdownRemote)
            } else {
                (
                    CopyState { total: s.total.wrapping_add(n as u64), ..s },
                    CopyAction::WriteRemote(n),
                )
            },
            CopyEvent::FromRemote(n) => if n == 0 {
                (CopyState { end: Some(CopyEnd::RemoteClosed), ..s }, CopyAction::ShutdownClient)
            } else {
                (
                    CopyState { total: s.total.wrapping_add(n as u64), ..s },
                    CopyAction::WriteClient(n),
                )
            },
            CopyEvent::Idle => (
                CopyState { end: Some(CopyEnd::IdleTimeout), ..s },
                CopyAction::TimedOut,
            ),
        }
    }
}

impl CopyState {
    /// Nothing forwarded yet.
    pub fn new() -> (s: CopyState)
        ensures
            s == (CopyState { total: 0, end: None }),
    {
        CopyState { total: 0, end: None }
    }

    /// Records one event and says what to do.
    pub fn step(&mut self, event: CopyEvent) -> (a: CopyAction)
        ensures
            (*final(self), a) == copy_step(*old(self), event),
    {
        if self.end.is_some() {
            return CopyAction::Ignore;
        }
        match event {
            CopyEvent::FromClient(n) => {
                if n == 0 {
                    self.end = Some(CopyEnd::ClientClosed);
                    CopyAction::ShutdownRemote
                } else {
                    self.total = self.total.wrapping_add(n as u64);
                    CopyAction::WriteRemote(n)
                }
            },
            CopyEvent::FromRemote(n) => {
                if n == 0 {
                    self.end = Some(CopyEnd::RemoteClosed);
                    CopyAction::ShutdownClient
                } else {
                    self.total = self.total.wrapping_add(n as u64);
                    CopyAction::WriteClient(n)
                }
            },
            CopyEvent::Idle => {
                self.end = Some(CopyEnd::IdleTimeout);
                CopyAction::TimedOut
            },
        }
    }
}

/// Bytes read from one side, in order.
pub open spec fn forwarded(events: Seq<CopyEvent>) -> nat
    decreases events.len(),
{
    if events.len() == 0 {
        0
    } else {
        let n: nat = match events.last() {
            CopyEvent::FromClient(k) => k as nat,
            CopyEvent::FromRemote(k) => k as nat,
            CopyEvent::Idle => 0,
        };
        forwarded(events.drop_last()) + n
    }
}

/// Runs the forwarding over a series of events.
pub open spec fn copy_run(s: CopyState, events: Seq<CopyEvent>) -> CopyState
    decreases events.len(),
{
    if events.len() == 0 {
        s
    } else {
        copy_step(copy_run(s, events.drop_last()), events.last()).0
    }
}

/// While forwarding goes on, the count is the number of bytes read from both
/// sides (modulo `2^64`), and once it has ended nothing changes it.
pub proof fn law_copy_counts_bytes(events: Seq<CopyEvent>)
    ensures
        copy_run(CopyState { total: 0, end: None }, events).end is None ==> copy_run(
            CopyState { total: 0, end: None },
            events,
        ).total == forwarded(events) % 0x1_0000_0000_0000_0000,
    decreases events.len(),
{
    if events.len() > 0 {
        let init = CopyState { total: 0, end: None };
        law_copy_counts_bytes(events.drop_last());
        let prev = copy_run(init, events.drop_last());
        if copy_run(init, events).end is None {
            assert(prev.end is None);
            let f = forwarded(events.drop_last());
            match events.last() {
                CopyEvent::FromClient(k) => {
                    assert(prev.total.wrapping_add(k as u64) == (prev.total + k) % 0x1_0000_0000_0000_0000);
                    assert((f % 0x1_0000_0000_0000_0000 + k) % 0x1_0000_0000_0000_0000 == (f + k) % 0x1_0000_0000_0000_0000) by (nonlinear_arith);
                },
                CopyEvent::FromRemote(k) => {
                    assert(prev.total.wrapping_add(k as u64) == (prev.total + k) % 0x1_0000_0000_0000_0000);
                    assert((f % 0x1_0000_0000_0000_0000 + k) % 0x1_0000_0000_0000_0000 == (f + k) % 0x1_0000_0000_0000_0000) by (nonlinear_arith);
                },
                CopyEvent::Idle => {},
            }
        }
    }
}

/// Attempts are counted: starting, a retry after the delay, and a retry
/// after client data taken in during the wait each begin a new attempt and
/// add one to the count; no other step changes it; and a failed attempt
/// waits the retry delay of its number.
pub proof fn law_attempts_counted(m: ConnectModel, e: ConnectEventModel)
    ensures
        m.phase == ConnectPhase::Ready && e == ConnectEventModel::Start ==> connect_step(m, e).0.attempt
            == m.attempt.wrapping_add(1) && connect_step(m, e).0.phase == ConnectPhase::ReadingClient,
        m.phase == ConnectPhase::Waiting && e == ConnectEventModel::DelayElapsed ==> connect_step(
            m,
            e,
        ).0.attempt == m.attempt.wrapping_add(1) && connect_step(m, e).0.phase
            == ConnectPhase::ReadingClient,
        m.phase == ConnectPhase::ReadingDuringWait && e == ConnectEventModel::ClientDrained
            ==> connect_step(m, e).0.attempt == m.attempt.wrapping_add(1) && connect_step(
            m,
            e,
        ).0.phase == ConnectPhase::ReadingClient,
        !(m.phase == ConnectPhase::Ready && e == ConnectEventModel::Start) && !(m.phase
            == ConnectPhase::Waiting && e == ConnectEventModel::DelayElapsed) && !(m.phase
            == ConnectPhase::ReadingDuringWait && e == ConnectEventModel::ClientDrained)
            ==> connect_step(m, e).0.attempt == m.attempt,
        m.phase == ConnectPhase::Connecting && e == ConnectEventModel::Attempted(false)
            ==> connect_step(m, e).1 == ConnectAction::Wait(
            retry_delay(
                m.retry_delay_secs as nat,
                m.attempt as nat,
                m.max_retry_delay_secs as nat,
            ) as u64,
        ),
        connect_step(m, e).0.retry_delay_secs == m.retry_delay_secs,
        connect_step(m, e).0.max_retry_delay_secs == m.max_retry_delay_secs,
{
}

/// Each failed attempt waits at least as long as the one before, whether the
/// retry came after the delay or after client data during the wait: the
/// next failure waits the retry delay of the next attempt number, which is
/// twice the previous wait while it stays under the maximum (for the first
/// five doublings).
pub proof fn law_back_off_grows(m: ConnectModel, via_client_data: bool, d: Seq<u8>)
    requires
        m.phase == ConnectPhase::Connecting,
        1 <= m.attempt < u64::MAX,
    ensures
        ({
            let w = connect_step(m, ConnectEventModel::Attempted(false));
            let r = if via_client_data {
                let a = connect_step(w.0, ConnectEventModel::ClientReadable);
                let b = connect_step(a.0, ConnectEventModel::ClientData(d));
                connect_step(b.0, ConnectEventModel::ClientDrained)
            } else {
                connect_step(w.0, ConnectEventModel::DelayElapsed)
            };
            let c = connect_step(r.0, ConnectEventModel::ClientDrained);
            let f = connect_step(c.0, ConnectEventModel::Attempted(false));
            let first = retry_delay(
                m.retry_delay_secs as nat,
                m.attempt as nat,
                m.max_retry_delay_secs as nat,
            );
            let next = retry_delay(
                m.retry_delay_secs as nat,
                (m.attempt + 1) as nat,
                m.max_retry_delay_secs as nat,
            );
            &&& w.1 == ConnectAction::Wait(first as u64)
            &&& f.1 == ConnectAction::Wait(next as u64)
            &&& first <= next
            &&& (m.attempt <= 5 && 2 * first < m.max_retry_delay_secs) ==> next == 2 * first
        }),
{
    law_retry_delay_bounded(
        m.retry_delay_secs as nat,
        m.max_retry_delay_secs as nat,
        m.attempt as nat,
        (m.attempt + 1) as nat,
    );
    assert(m.attempt.wrapping_add(1) == m.attempt + 1);
}

} // verus!
