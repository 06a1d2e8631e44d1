//! Public-IP discovery as a state machine: the caller performs each lookup or
//! request the machine asks for and hands back what came of it.
use vstd::prelude::*;

use crate::ip::{
    first_address_run, is_ipv4_text, lemma_first_address_run_is_ipv4, opt_text, response_address,
    response_ipv4,
};
use crate::text::trimmed;

verus! {

/// The built-in public-IP services, tried in turn.
pub open spec fn builtin_service(i: nat) -> Seq<char> {
    if i % 2 == 0 {
        "https://ip.3322.net"@
    } else {
        "https://ip.automate.org.cn"@
    }
}

/// URL of built-in service number `i` (counted modulo the two services).
pub fn builtin_service_url(i: usize) -> (u: String)
    ensures
        u@ == builtin_service(i as nat),
{
    if i % 2 == 0 {
        "https://ip.3322.net".to_owned()
    } else {
        "https://ip.automate.org.cn".to_owned()
    }
}

/// Which answer the lookup is waiting for.
#[derive(Debug, Clone, Copy, PartialEq, Eq, Structural)]
pub enum IpLookupStage {
    /// Not waiting: the next lookup starts with `Begin`.
    Ready,
    /// The address of the configured interface.
    Interface,
    /// The answer of `IP_ECHO_API`.
    EchoService,
    /// The answer of a built-in service.
    BuiltinService,
}

/// A public-IP lookup in progress, with the built-in service to use next.
#[derive(Debug, Clone, Copy, PartialEq, Eq, Structural)]
pub struct IpLookup {
    pub stage: IpLookupStage,
    /// Index of the built-in service the next built-in request goes to.
    pub next_builtin: usize,
}

/// Why a lookup gave no address.
#[derive(Debug, Clone, Copy, PartialEq, Eq, Structural)]
pub enum IpLookupError {
    /// The built-in service could not be queried or its answer not read.
    BuiltinServiceFailed,
    /// The built-in service's answer held no IPv4 address.
    NoAddressInResponse,
    /// An answer came that the lookup was not waiting for.
    UnexpectedEvent,
}

/// What the caller hands to the lookup.
pub enum IpLookupEvent {
    /// Start a lookup.
    Begin,
    /// The configured interface's IPv4 address, if it has one.
    InterfaceAddress(Option<String>),
    /// The body of the service's answer, or none when the request failed.
    Response(Option<String>),
}

/// What the lookup asks of the caller.
pub enum IpLookupAction {
    /// The public IP is known.
    Found(String),
    /// The lookup failed.
    Failed(IpLookupError),
    /// Find the IPv4 address of this interface.
    LookupInterface(String),
    /// Send a GET request to this URL and hand back the body.
    Fetch(String),
}

/// An event seen through the views of its strings.
pub enum IpEventModel {
    Begin,
    InterfaceAddress(Option<Seq<char>>),
    Response(Option<Seq<char>>),
}

/// An action seen through the views of its strings.
pub enum IpActionModel {
    Found(Seq<char>),
    Failed(IpLookupError),
    LookupInterface(Seq<char>),
    Fetch(Seq<char>),
}

pub open spec fn event_model(e: IpLookupEvent) -> IpEventModel {
    match e {
        IpLookupEvent::Begin => IpEventModel::Begin,
        IpLookupEvent::InterfaceAddress(a) => IpEventModel::InterfaceAddress(opt_text(a)),
        IpLookupEvent::Response(r) => IpEventModel::Response(opt_text(r)),
    }
}

pub open spec fn action_model(a: IpLookupAction) -> IpActionModel {
    match a {
        IpLookupAction::Found(s) => IpActionModel::Found(s@),
        IpLookupAction::Failed(e) => IpActionModel::Failed(e),
        IpLookupAction::LookupInterface(s) => IpActionModel::LookupInterface(s@),
        IpLookupAction::Fetch(s) => IpActionModel::Fetch(s@),
    }
}

/// Where the IP may come from, in order of preference.
pub struct IpSources {
    pub custom_ip: Option<String>,
    pub interface: Option<String>,
    pub ip_echo_api: Option<String>,
}

/// The request to a built-in service, advancing to the next one.
pub open spec fn ask_builtin(st: IpLookup) -> (IpLookup, IpActionModel) {
    (
        IpLookup { stage: IpLookupStage::BuiltinService, next_builtin: ((st.next_builtin % 2 + 1) % 2) as usize },
        IpActionModel::Fetch(builtin_service(st.next_builtin as nat)),
    )
}

/// The echo service when one is configured, else a built-in one.
pub open spec fn ask_service(src: IpSources, st: IpLookup) -> (IpLookup, IpActionModel) {
    match src.ip_echo_api {
        Some(u) => (IpLookup { stage: IpLookupStage::EchoService, ..st }, IpActionModel::Fetch(u@)),
        None => ask_builtin(st),
    }
}

/// The lookup finished, ready for the next one.
pub open spec fn finish(st: IpLookup, a: IpActionModel) -> (IpLookup, IpActionModel) {
    (IpLookup { stage: IpLookupStage::Ready, ..st }, a)
}

/// One step of the lookup. Sources are tried in the order `CUSTOM_IP`,
/// `INTERFACE`, `IP_ECHO_API`, built-in services. An interface without an
/// address, and an echo service that fails or answers without one, fall
/// through to the next source; the built-in services are the last resort, and
/// their failure ends the lookup.
pub open spec fn lookup_step(src: IpSources, st: IpLookup, ev: IpEventModel) -> (
    IpLookup,
    IpActionModel,
) {
    match (st.stage, ev) {
        (_, IpEventModel::Begin) => match src.custom_ip {
            Some(ip) => finish(st, IpActionModel::Found(ip@)),
            None => match src.interface {
                Some(name) => (
                    IpLookup { stage: IpLookupStage::Interface, ..st },
                    IpActionModel::LookupInterface(name@),
                ),
                None => ask_service(src, st),
            },
        },
        (IpLookupStage::Interface, IpEventModel::InterfaceAddress(a)) => match a {
            Some(ip) => finish(st, IpActionModel::Found(ip)),
            None => ask_service(src, st),
        },
        (IpLookupStage::EchoService, IpEventModel::Response(r)) => match r {
            None => ask_builtin(st),
            Some(text) => match response_address(text) {
                Some(ip) => finish(st, IpActionModel::Found(ip)),
                None => ask_builtin(st),
            },
        },
        (IpLookupStage::BuiltinService, IpEventModel::Response(r)) => match r {
            None => finish(st, IpActionModel::Failed(IpLookupError::BuiltinServiceFailed)),
            Some(text) => match response_address(text) {
                Some(ip) => finish(st, IpActionModel::Found(ip)),
                None => finish(st, IpActionModel::Failed(IpLookupError::NoAddressInResponse)),
            },
        },
        _ => finish(st, IpActionModel::Failed(IpLookupError::UnexpectedEvent)),
    }
}

impl IpLookup {
    /// A lookup that has not started, beginning with the first built-in service.
    pub fn new() -> (l: IpLookup)
        ensures
            l.stage == IpLookupStage::Ready,
            l.next_builtin == 0,
    {
        IpLookup { stage: IpLookupStage::Ready, next_builtin: 0 }
    }

    fn ask_builtin(&mut self) -> (a: IpLookupAction)
        ensures
            (*final(self), action_model(a)) == ask_builtin(*old(self)),
    {
        let url = builtin_service_url(self.next_builtin);
        self.next_builtin = (self.next_builtin % 2 + 1) % 2;
        self.stage = IpLookupStage::BuiltinService;
        IpLookupAction::Fetch(url)
    }

    fn ask_service(&mut self, src: &IpSources) -> (a: IpLookupAction)
        ensures
            (*final(self), action_model(a)) == ask_service(*src, *old(self)),
    {
        match &src.ip_echo_api {
            Some(u) => {
                self.stage = IpLookupStage::EchoService;
                IpLookupAction::Fetch(u.clone())
            },
            None => self.ask_builtin(),
        }
    }

    fn finish(&mut self, a: IpLookupAction) -> (r: IpLookupAction)
        ensures
            (*final(self), action_model(r)) == finish(*old(self), action_model(a)),
    {
        self.stage = IpLookupStage::Ready;
        a
    }

    /// Advances the lookup by one event and says what to do next.
    pub fn step(&mut self, src: &IpSources, event: IpLookupEvent) -> (a: IpLookupAction)
        ensures
            (*final(self), action_model(a)) == lookup_step(*src, *old(self), event_model(event)),
            old(self).next_builtin < 2 ==> final(self).next_builtin < 2,
    {
        match event {
            IpLookupEvent::Begin => match &src.custom_ip {
                Some(ip) => self.finish(IpLookupAction::Found(ip.clone())),
                None => match &src.interface {
                    Some(name) => {
                        self.stage = IpLookupStage::Interface;
                        IpLookupAction::LookupInterface(name.clone())
                    },
                    None => self.ask_service(src),
                },
            },
            IpLookupEvent::InterfaceAddress(a) => {
                if self.stage == IpLookupStage::Interface {
                    match a {
                        Some(ip) => self.finish(IpLookupAction::Found(ip)),
                        None => self.ask_service(src),
                    }
                } else {
                    self.finish(IpLookupAction::Failed(IpLookupError::UnexpectedEvent))
                }
            },
            IpLookupEvent::Response(r) => {
                if self.stage == IpLookupStage::EchoService {
                    match r {
                        None => self.ask_builtin(),
                        Some(text) => match response_ipv4(text.as_str()) {
                            Some(ip) => self.finish(IpLookupAction::Found(ip)),
                            None => self.ask_builtin(),
                        },
                    }
                } else if self.stage == IpLookupStage::BuiltinService {
                    match r {
                        None => self.finish(
                            IpLookupAction::Failed(IpLookupError::BuiltinServiceFailed),
                        ),
                        Some(text) => match response_ipv4(text.as_str()) {
                            Some(ip) => self.finish(IpLookupAction::Found(ip)),
                            None => self.finish(
                                IpLookupAction::Failed(IpLookupError::NoAddressInResponse),
                            ),
                        },
                    }
                } else {
                    self.finish(IpLookupAction::Failed(IpLookupError::UnexpectedEvent))
                }
            },
        }
    }
}

/// A configured `CUSTOM_IP` is the answer at once, whatever else is
/// configured.
pub proof fn law_custom_ip_first(src: IpSources, st: IpLookup)
    requires
        src.custom_ip is Some,
    ensures
        lookup_step(src, st, IpEventModel::Begin).1 == IpActionModel::Found(src.custom_ip->0@),
        lookup_step(src, st, IpEventModel::Begin).0.stage == IpLookupStage::Ready,
{
}

/// Without `CUSTOM_IP`, a configured interface is asked before any service.
pub proof fn law_interface_before_services(src: IpSources, st: IpLookup)
    requires
        src.custom_ip is None,
        src.interface is Some,
    ensures
        lookup_step(src, st, IpEventModel::Begin).1 == IpActionModel::LookupInterface(
            src.interface->0@,
        ),
{
}

/// Consecutive requests to built-in services alternate between the two.
pub proof fn law_builtin_services_alternate(st: IpLookup)
    ensures
        ask_builtin(st).0.next_builtin < 2,
        builtin_service(ask_builtin(st).0.next_builtin as nat) != builtin_service(
            st.next_builtin as nat,
        ),
        ask_builtin(ask_builtin(st).0).0.next_builtin == st.next_builtin % 2,
{
    reveal_strlit("https://ip.3322.net");
    reveal_strlit("https://ip.automate.org.cn");
    assert("https://ip.3322.net"@.len() != "https://ip.automate.org.cn"@.len());
}

/// The built-in services back up the echo service: when the echo request
/// fails, or its answer holds no address, the next built-in service is asked.
pub proof fn law_builtin_backs_up_echo(src: IpSources, st: IpLookup, r: Option<Seq<char>>)
    requires
        st.stage == IpLookupStage::EchoService,
        r matches Some(text) ==> response_address(text) is None,
    ensures
        lookup_step(src, st, IpEventModel::Response(r)).1 == IpActionModel::Fetch(
            builtin_service(st.next_builtin as nat),
        ),
        lookup_step(src, st, IpEventModel::Response(r)).0.stage == IpLookupStage::BuiltinService,
{
}

/// Without `CUSTOM_IP`, `IP_ECHO_API` is asked before any built-in service:
/// at once when no interface is configured, and right after the interface
/// turned out to have no address.
pub proof fn law_echo_before_builtin(src: IpSources, st: IpLookup)
    requires
        src.custom_ip is None,
        src.ip_echo_api is Some,
    ensures
        src.interface is None ==> lookup_step(src, st, IpEventModel::Begin).1 == IpActionModel::Fetch(
            src.ip_echo_api->0@,
        ),
        st.stage == IpLookupStage::Interface ==> lookup_step(
            src,
            st,
            IpEventModel::InterfaceAddress(None),
        ).1 == IpActionModel::Fetch(src.ip_echo_api->0@),
{
}

/// How far a lookup has come: interface, then echo service, then built-in
/// service.
pub open spec fn stage_rank(s: IpLookupStage) -> nat {
    match s {
        IpLookupStage::Ready => 0,
        IpLookupStage::Interface => 1,
        IpLookupStage::EchoService => 2,
        IpLookupStage::BuiltinService => 3,
    }
}

/// A lookup always ends: every answer either finishes it or moves it to a
/// later source, so it makes at most three requests.
pub proof fn law_lookup_progresses(src: IpSources, st: IpLookup, ev: IpEventModel)
    requires
        st.stage != IpLookupStage::Ready,
        !(ev is Begin),
    ensures
        lookup_step(src, st, ev).0.stage == IpLookupStage::Ready || stage_rank(
            lookup_step(src, st, ev).0.stage,
        ) > stage_rank(st.stage),
{
}

/// An address found on the configured interface is the public IP: the
/// lookup ends with it at once, whatever else is configured.
pub proof fn law_interface_address_is_the_answer(src: IpSources, st: IpLookup, ip: Seq<char>)
    requires
        st.stage == IpLookupStage::Interface,
    ensures
        lookup_step(src, st, IpEventModel::InterfaceAddress(Some(ip))).1 == IpActionModel::Found(ip),
        lookup_step(src, st, IpEventModel::InterfaceAddress(Some(ip))).0 == (IpLookup {
            stage: IpLookupStage::Ready,
            ..st
        }),
{
}

/// An answer of the echo service or of a built-in service that holds an
/// address ends the lookup with that address; the next built-in service is
/// not asked.
pub proof fn law_service_answer_is_the_answer(
    src: IpSources,
    st: IpLookup,
    text: Seq<char>,
    ip: Seq<char>,
)
    requires
        st.stage == IpLookupStage::EchoService || st.stage == IpLookupStage::BuiltinService,
        response_address(text) == Some(ip),
    ensures
        lookup_step(src, st, IpEventModel::Response(Some(text))).1 == IpActionModel::Found(ip),
        lookup_step(src, st, IpEventModel::Response(Some(text))).0 == (IpLookup {
            stage: IpLookupStage::Ready,
            ..st
        }),
{
}

/// A service answer that is, once trimmed, an IPv4 address in dotted-decimal
/// notation yields that address; any other answer yields the first address
/// inside it, if any.
pub proof fn law_response_address(text: Seq<char>)
    ensures
        is_ipv4_text(trimmed(text)) ==> response_address(text) == Some(trimmed(text)),
        !is_ipv4_text(trimmed(text)) ==> response_address(text) == first_address_run(
            trimmed(text),
        ),
        response_address(text) matches Some(ip) ==> is_ipv4_text(ip),
{
    lemma_first_address_run_is_ipv4(trimmed(text));
}

} // verus!
