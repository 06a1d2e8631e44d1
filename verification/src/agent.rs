//! The reporting loop's decisions: on each report tick and each IP-refresh
//! tick, which node id, version and public IP to use, when to update
//! ZLMediaKit's `rtc.externIP`, and when to report. The caller waits for the
//! ticks, performs each action and hands back its outcome.
use vstd::prelude::*;

use crate::ip::opt_text;
use crate::zlm::{cached, report_version, VersionCache};

verus! {

/// The two periodic timers.
#[derive(Debug, Clone, Copy, PartialEq, Eq, Structural)]
pub enum Tick {
    /// Time for the periodic report.
    Report,
    /// Time to look at the public IP again.
    IpRefresh,
}

/// What the agent waits for.
pub enum AgentPhase {
    Idle,
    /// The node id, for a tick.
    AwaitServerId(Tick),
    /// The version probe, with the node id.
    AwaitVersion(Tick, String),
    /// The public IP, with the node id and the version.
    AwaitPublicIp(Tick, String, String),
    /// ZLMediaKit taking the new address, with node id, address and version.
    AwaitExternIp(String, String, String),
}

/// The reporting loop's state.
pub struct Agent {
    pub phase: AgentPhase,
    /// The public IP last found.
    pub cached_ip: Option<String>,
    /// The last real ZLMediaKit version.
    pub versions: VersionCache,
    /// `ENABLE_RTC_EXTERN_IP_UPDATE`.
    pub update_extern_ip: bool,
}

/// What the caller hands to the agent.
pub enum AgentEvent {
    Tick(Tick),
    /// The node id (`mediaServerId`, else the configured fallback), if any.
    ServerId(Option<String>),
    /// The version text of a fresh probe of ZLMediaKit.
    VersionProbed(String),
    /// The public IP, or none when the lookup failed.
    PublicIp(Option<String>),
    /// ZLMediaKit was asked to take the new address (whatever it answered).
    ExternIpUpdated,
}

/// Why a tick ends without a report.
#[derive(Debug, Clone, Copy, PartialEq, Eq, Structural)]
pub enum SkipReason {
    /// No `mediaServerId` yet and no fallback id.
    NoServerId,
    /// The first public-IP lookup failed.
    InitialIpUnavailable,
    /// The refreshing public-IP lookup failed.
    IpRefreshFailed,
    /// An outcome came that the agent was not waiting for.
    UnexpectedEvent,
}

/// What the agent asks of the caller.
pub enum AgentAction {
    ResolveServerId,
    ProbeVersion,
    FetchPublicIp,
    /// Set ZLMediaKit's `rtc.externIP` to this address.
    UpdateExternIp(String),
    /// Send this report to the manager.
    SendReport { server_id: String, public_ip: String, version: String },
    /// End the tick without a report, and say why.
    Skip(SkipReason),
    /// End the tick quietly.
    Wait,
}

pub enum PhaseModel {
    Idle,
    AwaitServerId(Tick),
    AwaitVersion(Tick, Seq<char>),
    AwaitPublicIp(Tick, Seq<char>, Seq<char>),
    AwaitExternIp(Seq<char>, Seq<char>, Seq<char>),
}

pub struct AgentModel {
    pub phase: PhaseModel,
    pub cached_ip: Option<Seq<char>>,
    pub version: Option<Seq<char>>,
    pub update_extern_ip: bool,
}

pub enum EventModel {
    Tick(Tick),
    ServerId(Option<Seq<char>>),
    VersionProbed(Seq<char>),
    PublicIp(Option<Seq<char>>),
    ExternIpUpdated,
}

pub enum ActionModel {
    ResolveServerId,
    ProbeVersion,
    FetchPublicIp,
    UpdateExternIp(Seq<char>),
    SendReport { server_id: Seq<char>, public_ip: Seq<char>, version: Seq<char> },
    Skip(SkipReason),
    Wait,
}

pub open spec fn phase_model(p: AgentPhase) -> PhaseModel {
    match p {
        AgentPhase::Idle => PhaseModel::Idle,
        AgentPhase::AwaitServerId(t) => PhaseModel::AwaitServerId(t),
        AgentPhase::AwaitVersion(t, s) => PhaseModel::AwaitVersion(t, s@),
        AgentPhase::AwaitPublicIp(t, s, v) => PhaseModel::AwaitPublicIp(t, s@, v@),
        AgentPhase::AwaitExternIp(s, i, v) => PhaseModel::AwaitExternIp(s@, i@, v@),
    }
}

pub open spec fn agent_model(a: Agent) -> AgentModel {
    AgentModel {
        phase: phase_model(a.phase),
        cached_ip: opt_text(a.cached_ip),
        version: cached(a.versions.version),
        update_extern_ip: a.update_extern_ip,
    }
}

pub open spec fn event_model(e: AgentEvent) -> EventModel {
    match e {
        AgentEvent::Tick(t) => EventModel::Tick(t),
        AgentEvent::ServerId(s) => EventModel::ServerId(opt_text(s)),
        AgentEvent::VersionProbed(v) => EventModel::VersionProbed(v@),
        AgentEvent::PublicIp(i) => EventModel::PublicIp(opt_text(i)),
        AgentEvent::ExternIpUpdated => EventModel::ExternIpUpdated,
    }
}

pub open spec fn action_model(a: AgentAction) -> ActionModel {
    match a {
        AgentAction::ResolveServerId => ActionModel::ResolveServerId,
        AgentAction::ProbeVersion => ActionModel::ProbeVersion,
        AgentAction::FetchPublicIp => ActionModel::FetchPublicIp,
        AgentAction::UpdateExternIp(i) => ActionModel::UpdateExternIp(i@),
        AgentAction::SendReport { server_id, public_ip, version } => ActionModel::SendReport {
            server_id: server_id@,
            public_ip: public_ip@,
            version: version@,
        },
        AgentAction::Skip(r) => ActionModel::Skip(r),
        AgentAction::Wait => ActionModel::Wait,
    }
}

/// One step of the reporting loop.
///
/// A tick first asks for the node id; without one a report tick is skipped
/// (and an IP-refresh tick ends quietly). Then the version is probed (see
/// `report_version`). A report tick reports with the known public IP, asking
/// for one only when none is known yet. An IP-refresh tick always asks for
/// the public IP; when it changed, the new one is kept, ZLMediaKit's
/// `rtc.externIP` is updated when that is enabled, and a report is sent at
/// once.
pub open spec fn agent_step(m: AgentModel, e: EventModel) -> (AgentModel, ActionModel) {
    let idle = AgentModel { phase: PhaseModel::Idle, ..m };
    match (m.phase, e) {
        (PhaseModel::Idle, EventModel::Tick(t)) => (
            AgentModel { phase: PhaseModel::AwaitServerId(t), ..m },
            ActionModel::ResolveServerId,
        ),
        (PhaseModel::AwaitServerId(t), EventModel::ServerId(sid)) => match sid {
            None => (
                idle,
                if t == Tick::Report {
                    ActionModel::Skip(SkipReason::NoServerId)
                } else {
                    ActionModel::Wait
                },
            ),
            Some(s) => (
                AgentModel { phase: PhaseModel::AwaitVersion(t, s), ..m },
                ActionModel::ProbeVersion,
            ),
        },
        (PhaseModel::AwaitVersion(t, s), EventModel::VersionProbed(p)) => {
            let (cache, ver) = report_version(m.version, p);
            if t == Tick::Report && m.cached_ip is Some {
                (
                    AgentModel { phase: PhaseModel::Idle, version: cache, ..m },
                    ActionModel::SendReport { server_id: s, public_ip: m.cached_ip->0, version: ver },
                )
            } else {
                (
                    AgentModel { phase: PhaseModel::AwaitPublicIp(t, s, ver), version: cache, ..m },
                    ActionModel::FetchPublicIp,
                )
            }
        },
        (PhaseModel::AwaitPublicIp(t, s, ver), EventModel::PublicIp(found)) => match found {
            None => (
                idle,
                ActionModel::Skip(
                    if t == Tick::Report {
                        SkipReason::InitialIpUnavailable
                    } else {
                        SkipReason::IpRefreshFailed
                    },
                ),
            ),
            Some(ip) => if t == Tick::Report {
                (
                    AgentModel { phase: PhaseModel::Idle, cached_ip: Some(ip), ..m },
                    ActionModel::SendReport { server_id: s, public_ip: ip, version: ver },
                )
            } else if m.cached_ip == Some(ip) {
                (idle, ActionModel::Wait)
            } else if m.update_extern_ip {
                (
                    AgentModel {
                        phase: PhaseModel::AwaitExternIp(s, ip, ver),
                        cached_ip: Some(ip),
                        ..m
                    },
                    ActionModel::UpdateExternIp(ip),
                )
            } else {
                (
                    AgentModel { phase: PhaseModel::Idle, cached_ip: Some(ip), ..m },
                    ActionModel::SendReport { server_id: s, public_ip: ip, version: ver },
                )
            },
        },
        (PhaseModel::AwaitExternIp(s, ip, ver), EventModel::ExternIpUpdated) => (
            idle,
            ActionModel::SendReport { server_id: s, public_ip: ip, version: ver },
        ),
        _ => (m, ActionModel::Skip(SkipReason::UnexpectedEvent)),
    }
}

impl Agent {
    /// An idle agent that knows no IP and no version yet.
    pub fn new(update_extern_ip: bool) -> (a: Agent)
        ensures
            agent_model(a) == (AgentModel {
                phase: PhaseModel::Idle,
                cached_ip: None,
                version: None,
                update_extern_ip,
            }),
    {
        Agent {
            phase: AgentPhase::Idle,
            cached_ip: None,
            versions: VersionCache::new(),
            update_extern_ip,
        }
    }

    /// Advances the loop by one event and says what to do next.
    pub fn step(&mut self, event: AgentEvent) -> (a: AgentAction)
        ensures
            (agent_model(*final(self)), action_model(a)) == agent_step(
                agent_model(*old(self)),
                event_model(event),
            ),
    {
        let mut phase = AgentPhase::Idle;
        std::mem::swap(&mut phase, &mut self.phase);
        match (phase, event) {
            (AgentPhase::Idle, AgentEvent::Tick(t)) => {
                self.phase = AgentPhase::AwaitServerId(t);
                AgentAction::ResolveServerId
            },
            (AgentPhase::AwaitServerId(t), AgentEvent::ServerId(sid)) => match sid {
                None => {
                    if t == Tick::Report {
                        AgentAction::Skip(SkipReason::NoServerId)
                    } else {
                        AgentAction::Wait
                    }
                },
                Some(s) => {
                    self.phase = AgentPhase::AwaitVersion(t, s);
                    AgentAction::ProbeVersion
                },
            },
            (AgentPhase::AwaitVersion(t, s), AgentEvent::VersionProbed(p)) => {
                let ver = self.versions.reported_version(p);
                if t == Tick::Report && self.cached_ip.is_some() {
                    let ip = match &self.cached_ip {
                        Some(ip) => ip.clone(),
                        None => String::new(),
                    };
                    AgentAction::SendReport { server_id: s, public_ip: ip, version: ver }
                } else {
                    self.phase = AgentPhase::AwaitPublicIp(t, s, ver);
                    AgentAction::FetchPublicIp
                }
            },
            (AgentPhase::AwaitPublicIp(t, s, ver), AgentEvent::PublicIp(found)) => match found {
                None => {
                    if t == Tick::Report {
                        AgentAction::Skip(SkipReason::InitialIpUnavailable)
                    } else {
                        AgentAction::Skip(SkipReason::IpRefreshFailed)
                    }
                },
                Some(ip) => {
                    if t == Tick::Report {
                        self.cached_ip = Some(ip.clone());
                        AgentAction::SendReport { server_id: s, public_ip: ip, version: ver }
                    } else {
                        let unchanged = match &self.cached_ip {
                            Some(c) => *c == ip,
                            None => false,
                        };
                        if unchanged {
                            AgentAction::Wait
                        } else if self.update_extern_ip {
                            self.cached_ip = Some(ip.clone());
                            self.phase = AgentPhase::AwaitExternIp(s, ip.clone(), ver);
                            AgentAction::UpdateExternIp(ip)
                        } else {
                            self.cached_ip = Some(ip.clone());
                            AgentAction::SendReport { server_id: s, public_ip: ip, version: ver }
                        }
                    }
                },
            },
            (AgentPhase::AwaitExternIp(s, ip, ver), AgentEvent::ExternIpUpdated) => {
                AgentAction::SendReport { server_id: s, public_ip: ip, version: ver }
            },
            (phase, _) => {
                self.phase = phase;
                AgentAction::Skip(SkipReason::UnexpectedEvent)
            },
        }
    }
}

} // verus!

verus! {

/// The agent waits for ZLMediaKit to take an address only when that address
/// is the one it holds.
pub open spec fn agent_inv(m: AgentModel) -> bool {
    m.phase matches PhaseModel::AwaitExternIp(_, ip, _) ==> m.cached_ip == Some(ip)
}

/// Every step keeps the invariant; every report carries the public IP the
/// agent holds after the step; the held IP never disappears and only ever
/// changes to an address just found.
pub proof fn law_reports_carry_held_ip(m: AgentModel, e: EventModel)
    requires
        agent_inv(m),
    ensures
        agent_inv(agent_step(m, e).0),
        agent_step(m, e).1 matches ActionModel::SendReport { public_ip, .. } ==> agent_step(
            m,
            e,
        ).0.cached_ip == Some(public_ip),
        m.cached_ip is Some ==> agent_step(m, e).0.cached_ip is Some,
        agent_step(m, e).0.cached_ip == m.cached_ip || e == EventModel::PublicIp(
            agent_step(m, e).0.cached_ip,
        ),
{
}

/// A report tick without a node id never reports.
pub proof fn law_no_report_without_server_id(m: AgentModel)
    requires
        m.phase == PhaseModel::AwaitServerId(Tick::Report),
    ensures
        agent_step(m, EventModel::ServerId(None)).1 == ActionModel::Skip(SkipReason::NoServerId),
{
}

/// An IP refresh that finds the held address again does nothing more.
pub proof fn law_unchanged_ip_is_quiet(m: AgentModel, s: Seq<char>, v: Seq<char>, ip: Seq<char>)
    requires
        m.phase == PhaseModel::AwaitPublicIp(Tick::IpRefresh, s, v),
        m.cached_ip == Some(ip),
    ensures
        agent_step(m, EventModel::PublicIp(Some(ip))).1 == ActionModel::Wait,
        agent_step(m, EventModel::PublicIp(Some(ip))).0 == (AgentModel { phase: PhaseModel::Idle, ..m }),
{
}

/// A new address found on an IP refresh is pushed to ZLMediaKit first (when
/// enabled) and then reported at once with the same node id and version.
pub proof fn law_changed_ip_updates_then_reports(
    m: AgentModel,
    s: Seq<char>,
    v: Seq<char>,
    ip: Seq<char>,
)
    requires
        m.phase == PhaseModel::AwaitPublicIp(Tick::IpRefresh, s, v),
        m.cached_ip != Some(ip),
    ensures
        m.update_extern_ip ==> agent_step(m, EventModel::PublicIp(Some(ip))).1
            == ActionModel::UpdateExternIp(ip) && agent_step(
            agent_step(m, EventModel::PublicIp(Some(ip))).0,
            EventModel::ExternIpUpdated,
        ).1 == (ActionModel::SendReport { server_id: s, public_ip: ip, version: v }),
        !m.update_extern_ip ==> agent_step(m, EventModel::PublicIp(Some(ip))).1
            == (ActionModel::SendReport { server_id: s, public_ip: ip, version: v }),
{
}

/// A tick asks for the node id, then probes the version; a report tick with a
/// known public IP reports at once with it, otherwise (and on every IP
/// refresh) the public IP is looked up. The version reported is `offline`
/// when ZLMediaKit was unreachable, the probed version when it is a real
/// one, and the last real version when ZLMediaKit answered without one.
pub proof fn law_tick_flow(m: AgentModel, t: Tick, s: Seq<char>, p: Seq<char>)
    ensures
        m.phase == PhaseModel::Idle ==> agent_step(m, EventModel::Tick(t)).1
            == ActionModel::ResolveServerId,
        m.phase == PhaseModel::AwaitServerId(t) ==> agent_step(m, EventModel::ServerId(Some(s))).1
            == ActionModel::ProbeVersion,
        m.phase == PhaseModel::AwaitVersion(Tick::Report, s) && m.cached_ip is Some ==> (
        agent_step(m, EventModel::VersionProbed(p)).1 matches ActionModel::SendReport {
            server_id,
            public_ip,
            version,
        } && server_id == s && public_ip == m.cached_ip->0 && (p == "offline"@ ==> version
            == "offline"@) && (p != "offline"@ && p != "online (unknown version)"@ ==> version == p)
            && (p == "online (unknown version)"@ && m.version is Some ==> version == m.version->0)),
        (m.phase == PhaseModel::AwaitVersion(Tick::IpRefresh, s) || (m.phase
            == PhaseModel::AwaitVersion(Tick::Report, s) && m.cached_ip is None)) ==> agent_step(
            m,
            EventModel::VersionProbed(p),
        ).1 == ActionModel::FetchPublicIp,
{
    reveal_strlit("offline");
    reveal_strlit("online (unknown version)");
    assert("offline"@.len() != "online (unknown version)"@.len());
}

/// The first report sends the address just found and keeps it for the
/// next reports.
pub proof fn law_first_report_keeps_ip(m: AgentModel, s: Seq<char>, v: Seq<char>, ip: Seq<char>)
    requires
        m.phase == PhaseModel::AwaitPublicIp(Tick::Report, s, v),
    ensures
        agent_step(m, EventModel::PublicIp(Some(ip))).1 == (ActionModel::SendReport {
            server_id: s,
            public_ip: ip,
            version: v,
        }),
        agent_step(m, EventModel::PublicIp(Some(ip))).0.cached_ip == Some(ip),
{
}

} // verus!
