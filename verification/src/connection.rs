//! Reaching the daemons: how a host is named and addressed, what is said
//! when it cannot be reached, and when the dashboard starts or gives up.

use crate::text::{bytes_of, same_text};
use crate::types::HostId;
use vstd::prelude::*;
use vstd::string::*;

verus! {

/// Seconds within which a daemon has to answer a ping.
pub const PING_TIMEOUT_SECS: u64 = 10;

/// Seconds within which the first daemon has to be reached.
pub const STARTUP_TIMEOUT_SECS: u64 = 30;

/// How a host specification asks to reach its daemon.
#[derive(Clone, Copy, Debug, PartialEq, Eq, Structural)]
pub enum HostKind {
    /// The daemon of this machine: `local`.
    Local,
    /// Through a secure shell: `ssh://`.
    Ssh,
    /// Over plain TCP: `tcp://`.
    Tcp,
    /// Over TLS, with certificates: `tls://`.
    Tls,
    /// Nothing the dashboard knows.
    Unknown,
}

/// Why a host could not be reached.
#[derive(Debug)]
pub enum ConnectFailure {
    /// No client could be made for the host, with the reason.
    Client(String),
    /// The daemon answered the ping with an error.
    Ping(String),
    /// The daemon did not answer the ping in time.
    PingTimeout,
}

/// What happened to one attempt to reach a host, or to the wait for the
/// first of them.
#[derive(Clone, Copy, Debug, PartialEq, Eq, Structural)]
pub enum StartupEvent {
    /// A host was reached and answered the ping.
    Connected,
    /// A host could not be reached.
    Failed,
    /// The time to reach a first host ran out.
    TimedOut,
}

/// Why the dashboard gives up at startup.
#[derive(Clone, Copy, Debug, PartialEq, Eq, Structural)]
pub enum StartupFailure {
    /// Every host failed.
    NoHostReachable,
    /// No host was reached in time.
    TimedOut,
}

/// What to do after a startup event.
#[derive(Clone, Copy, Debug, PartialEq, Eq, Structural)]
pub enum StartupStep {
    /// Keep waiting.
    Wait,
    /// The first host is there: start to monitor it and bring up the
    /// dashboard.
    StartDashboard,
    /// A further host is there: start to monitor it.
    AddHost,
    /// Give up.
    Abort(StartupFailure),
}

/// The progress of reaching the configured hosts. All are tried at once;
/// the dashboard starts with the first that answers and takes in the
/// others as they come.
#[derive(Clone, Copy, Debug, PartialEq, Eq, Structural)]
pub struct Startup {
    /// Hosts that are tried.
    pub total: usize,
    /// Hosts that were reached.
    pub connected: usize,
    /// Hosts that failed.
    pub failed: usize,
}

/// `prefix` stands at the start of `s`.
pub open spec fn starts_with(s: Seq<u8>, prefix: Seq<u8>) -> bool {
    prefix.len() <= s.len() && s.subrange(0, prefix.len() as int) == prefix
}

/// The way in which a host specification asks to reach its daemon.
pub open spec fn spec_host_kind(spec: Seq<char>) -> HostKind {
    if spec == "local"@ {
        HostKind::Local
    } else if starts_with(bytes_of(spec), bytes_of("ssh://"@)) {
        HostKind::Ssh
    } else if starts_with(bytes_of(spec), bytes_of("tcp://"@)) {
        HostKind::Tcp
    } else if starts_with(bytes_of(spec), bytes_of("tls://"@)) {
        HostKind::Tls
    } else {
        HostKind::Unknown
    }
}

/// The host of the URL that a text denotes, or `None` where the text
/// denotes no URL or the URL has no host.
pub uninterp spec fn url_host_of(spec: Seq<char>) -> Option<Seq<char>>;

/// The text of an optional string.
pub open spec fn text_of(s: Option<String>) -> Option<Seq<char>> {
    match s {
        Some(t) => Some(t@),
        None => None,
    }
}

/// Calls `url::Url::parse` and, on the URL it gives, `Url::host_str`. The
/// result is named, not described: the host of the URL, or `None` where
/// the text does not parse or the URL has no host.
#[verifier::external_body]
fn url_host(spec: &str) -> (r: Option<String>)
    ensures
        text_of(r) == url_host_of(spec@),
{
    match url::Url::parse(spec) {
        Ok(parsed) => match parsed.host_str() {
            Some(host) => Some(host.to_string()),
            None => None,
        },
        Err(_) => None,
    }
}

/// The identifier under which a host is known: `local` for the daemon of
/// this machine; the host of the URL where the specification is a URL with
/// a host; else the specification itself.
pub open spec fn spec_host_id(spec: Seq<char>) -> Seq<char> {
    if spec == "local"@ {
        "local"@
    } else {
        match url_host_of(spec) {
            Some(h) => h,
            None => spec,
        }
    }
}

/// What is said of a host that could not be reached.
pub open spec fn spec_failure_message(spec: Seq<char>, failure: ConnectFailure) -> Seq<char> {
    match failure {
        ConnectFailure::Client(reason) => "Failed to create Docker client for host '"@ + spec
            + "': "@ + reason@,
        ConnectFailure::Ping(reason) => "Docker daemon ping failed for host '"@ + spec + "': "@
            + reason@,
        ConnectFailure::PingTimeout => "Docker daemon ping timeout for host '"@ + spec
            + "' (>10s)"@,
    }
}

/// What to do after a startup event, and where that leaves the progress.
pub open spec fn spec_startup_step(s: Startup, event: StartupEvent) -> (Startup, StartupStep) {
    match event {
        StartupEvent::Connected => (
            Startup { connected: crate::log_state::capped_sum(s.connected, 1), ..s },
            if s.connected == 0 {
                StartupStep::StartDashboard
            } else {
                StartupStep::AddHost
            },
        ),
        StartupEvent::Failed => {
            let next = Startup { failed: crate::log_state::capped_sum(s.failed, 1), ..s };
            (
                next,
                if s.connected == 0 && next.failed >= s.total {
                    StartupStep::Abort(StartupFailure::NoHostReachable)
                } else {
                    StartupStep::Wait
                },
            )
        },
        StartupEvent::TimedOut => (
            s,
            if s.connected == 0 {
                StartupStep::Abort(StartupFailure::TimedOut)
            } else {
                StartupStep::Wait
            },
        ),
    }
}

/// Whether `prefix` stands at the start of `s`.
fn has_prefix(s: &[u8], prefix: &[u8]) -> (r: bool)
    ensures
        r == starts_with(s@, prefix@),
{
    if prefix.len() > s.len() {
        return false;
    }
    let mut i: usize = 0;
    while i < prefix.len()
        invariant
            i <= prefix@.len(),
            prefix@.len() <= s@.len(),
            forall|k: int| 0 <= k < i ==> s@[k] == prefix@[k],
        decreases prefix.len() - i,
    {
        if s[i] != prefix[i] {
            proof {
                assert(s@.subrange(0, prefix@.len() as int)[i as int] == s@[i as int]);
            }
            return false;
        }
        i = i + 1;
    }
    proof {
        assert(s@.subrange(0, prefix@.len() as int) =~= prefix@);
    }
    true
}

/// Reads from a host specification how its daemon is to be reached.
pub fn host_kind(spec: &str) -> (r: HostKind)
    ensures
        r == spec_host_kind(spec@),
{
    let bytes = spec.as_bytes();
    if same_text(spec, "local") {
        HostKind::Local
    } else if has_prefix(bytes, "ssh://".as_bytes()) {
        HostKind::Ssh
    } else if has_prefix(bytes, "tcp://".as_bytes()) {
        HostKind::Tcp
    } else if has_prefix(bytes, "tls://".as_bytes()) {
        HostKind::Tls
    } else {
        HostKind::Unknown
    }
}

/// The identifier under which the host of a specification is known.
pub fn create_host_id(host_spec: &str) -> (r: HostId)
    ensures
        r@ == spec_host_id(host_spec@),
{
    if same_text(host_spec, "local") {
        String::from_str("local")
    } else {
        match url_host(host_spec) {
            Some(host) => host,
            None => String::from_str(host_spec),
        }
    }
}

/// Words what is said of a host that could not be reached.
pub fn failure_message(host_spec: &str, failure: &ConnectFailure) -> (r: String)
    ensures
        r@ == spec_failure_message(host_spec@, *failure),
{
    match failure {
        ConnectFailure::Client(reason) => {
            let mut r = String::from_str("Failed to create Docker client for host '");
            r.append(host_spec);
            r.append("': ");
            r.append(reason.as_str());
            r
        },
        ConnectFailure::Ping(reason) => {
            let mut r = String::from_str("Docker daemon ping failed for host '");
            r.append(host_spec);
            r.append("': ");
            r.append(reason.as_str());
            r
        },
        ConnectFailure::PingTimeout => {
            let mut r = String::from_str("Docker daemon ping timeout for host '");
            r.append(host_spec);
            r.append("' (>10s)");
            r
        },
    }
}

impl Startup {
    /// The progress before any host answered.
    pub fn new(total: usize) -> (r: Startup)
        ensures
            r == (Startup { total, connected: 0, failed: 0 }),
    {
        Startup { total, connected: 0, failed: 0 }
    }

    /// Takes in what happened and says what to do. The first host that
    /// answers starts the dashboard, every later one is added to it. A
    /// host that fails is no reason to give up unless none was reached and
    /// none is left to wait for; neither is the end of the waiting time
    /// once a host was reached.
    pub fn on_event(&mut self, event: StartupEvent) -> (step: StartupStep)
        ensures
            (*final(self), step) == spec_startup_step(*old(self), event),
    {
        match event {
            StartupEvent::Connected => {
                let first = self.connected == 0;
                self.connected = self.connected.saturating_add(1);
                if first {
                    StartupStep::StartDashboard
                } else {
                    StartupStep::AddHost
                }
            },
            StartupEvent::Failed => {
                self.failed = self.failed.saturating_add(1);
                if self.connected == 0 && self.failed >= self.total {
                    StartupStep::Abort(StartupFailure::NoHostReachable)
                } else {
                    StartupStep::Wait
                }
            },
            StartupEvent::TimedOut => {
                if self.connected == 0 {
                    StartupStep::Abort(StartupFailure::TimedOut)
                } else {
                    StartupStep::Wait
                }
            },
        }
    }
}

/// The dashboard gives up for want of a host only when no host was reached
/// and every host failed; once a host was reached it never gives up.
pub proof fn lemma_startup_aborts_only_without_hosts(s: Startup, event: StartupEvent)
    ensures
        spec_startup_step(s, event).1 is Abort ==> s.connected == 0,
        spec_startup_step(s, event).1 == StartupStep::Abort(StartupFailure::NoHostReachable) ==> {
            &&& event == StartupEvent::Failed
            &&& s.connected == 0
            &&& spec_startup_step(s, event).0.failed >= s.total
        },
        s.connected > 0 ==> spec_startup_step(s, event).0.connected > 0,
{
}

} // verus!
