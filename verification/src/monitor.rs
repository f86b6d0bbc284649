//! Keeping the dashboard in step with one daemon: what the daemon lists and
//! reports becomes events for the state machine, and a stream of statistics
//! is kept for every running container, one per container.

use crate::text::{first_chars, take_chars, trim_leading, without_leading};
use crate::time::{
    instant_from_unix_seconds, parse_rfc3339, rfc3339_instant, unix_seconds_in_range, Timestamp,
};
use crate::types::{
    AppEvent, Container, ContainerKey, ContainerState, ContainerStats, HealthStatus, HostId,
};
use vstd::prelude::*;
use vstd::string::*;

verus! {

/// Characters of a container identifier that the dashboard keeps.
pub const SHORT_ID_LEN: usize = 12;

/// Seconds to wait before listening again after the daemon's event stream
/// failed.
pub const RETRY_DELAY_SECS: u64 = 1;

/// The daemon that a monitor watches.
#[derive(Debug)]
pub struct MonitoredHost {
    pub host_id: HostId,
    /// Address of the external log viewer for this host.
    pub dozzle_url: Option<String>,
}

/// What the daemon's listing says of one container.
#[derive(Debug)]
pub struct ContainerSummary {
    /// The full identifier.
    pub id: Option<String>,
    /// The first of the container's names, as listed.
    pub first_name: Option<String>,
    /// The state, as text.
    pub state: Option<String>,
    /// Seconds since the Unix epoch at which the container was created.
    pub created: Option<i64>,
    /// The status line, which names the health where there is a check.
    pub status: Option<String>,
}

/// What the daemon says of one container when asked.
#[derive(Debug)]
pub struct ContainerDetail {
    pub name: Option<String>,
    /// The state, as text.
    pub status: Option<String>,
    /// The verdict of the health check, as text, where there is a check.
    pub health: Option<String>,
    /// When the container was created, in RFC 3339 notation.
    pub created: Option<String>,
}

/// What a health event carries about the health.
#[derive(Debug)]
pub struct HealthAttributes {
    /// The attribute `health_status`.
    pub health_status: Option<String>,
    /// The attribute `HealthStatus`, read where the first is missing.
    pub alternative: Option<String>,
}

/// A kind of lifecycle event that the monitor acts on.
#[derive(Clone, Copy, Debug, PartialEq, Eq, Structural)]
pub enum LifecycleKind {
    Start,
    Stop,
    Health,
    Other,
}

/// Work that the monitor asks of its surroundings.
#[derive(Debug)]
pub enum MonitorAction {
    /// Push an event into the event channel.
    Emit(AppEvent),
    /// Start the stream of statistics of a container.
    SpawnStats(String),
    /// Cancel the stream of statistics of a container.
    CancelStats(String),
    /// Wait this many seconds, then listen to the daemon again.
    Pause(u64),
}

/// The monitor of one daemon.
#[derive(Debug)]
pub struct Monitor {
    pub host: MonitoredHost,
    /// Identifiers of the containers whose statistics are streamed.
    pub active: Vec<String>,
}

/// The text, or the empty text where there is none.
pub open spec fn text_or_empty(t: Option<String>) -> Seq<char> {
    match t {
        Some(s) => s@,
        None => Seq::empty(),
    }
}

/// One of the texts is `t`.
pub open spec fn holds_text(texts: Seq<String>, t: Seq<char>) -> bool {
    exists|i: int| 0 <= i < texts.len() && (#[trigger] texts[i])@ == t
}

/// No text occurs twice.
pub open spec fn distinct_texts(texts: Seq<String>) -> bool {
    forall|i: int, j: int|
        0 <= i < texts.len() && 0 <= j < texts.len() && i != j ==> (#[trigger] texts[i])@ != (
        #[trigger] texts[j])@
}

/// The short form of a container identifier: its first twelve characters.
pub open spec fn short_id_of(id: Seq<char>) -> Seq<char> {
    first_chars(id, SHORT_ID_LEN as nat)
}

/// The state that an optional state text names.
pub open spec fn state_of(text: Option<String>) -> ContainerState {
    match text {
        Some(t) => ContainerState::spec_from_text(t@),
        None => ContainerState::Unknown,
    }
}

/// The health that an optional text names.
pub open spec fn health_of(text: Option<String>) -> Option<HealthStatus> {
    match text {
        Some(t) => HealthStatus::spec_from_text(t@),
        None => None,
    }
}

/// A name as the dashboard shows it: without the slashes in front.
pub open spec fn name_of(text: Option<String>) -> Seq<char> {
    match text {
        Some(n) => without_leading(n@, '/'),
        None => Seq::empty(),
    }
}

/// `c` is the container that a listing entry of `host` describes. Its
/// statistics start at zero.
pub open spec fn describes_summary(c: Container, host: MonitoredHost, s: ContainerSummary) -> bool {
    &&& c.id@ == short_id_of(text_or_empty(s.id))
    &&& c.name@ == name_of(s.first_name)
    &&& c.state == state_of(s.state)
    &&& c.health == health_of(s.status)
    &&& c.created == match s.created {
        Some(secs) => if unix_seconds_in_range(secs as int) {
            Some(Timestamp { secs, nanos: 0 })
        } else {
            None
        },
        None => None,
    }
    &&& c.stats == (ContainerStats {
        cpu: 0,
        memory: 0,
        network_tx_bytes_per_sec: 0,
        network_rx_bytes_per_sec: 0,
    })
    &&& c.host_id == host.host_id
    &&& c.dozzle_url == host.dozzle_url
}

/// `c` is the container with the short identifier `id` that the daemon's
/// answer describes.
pub open spec fn describes_detail(
    c: Container,
    host: MonitoredHost,
    id: Seq<char>,
    d: ContainerDetail,
) -> bool {
    &&& c.id@ == id
    &&& c.name@ == name_of(d.name)
    &&& c.state == state_of(d.status)
    &&& c.health == health_of(d.health)
    &&& c.created == match d.created {
        Some(t) => rfc3339_instant(t@),
        None => None,
    }
    &&& c.stats == (ContainerStats {
        cpu: 0,
        memory: 0,
        network_tx_bytes_per_sec: 0,
        network_rx_bytes_per_sec: 0,
    })
    &&& c.host_id == host.host_id
    &&& c.dozzle_url == host.dozzle_url
}

/// Streams of statistics of the container `id` that run after an action
/// was carried out, where `running` ran before.
pub open spec fn stats_after(running: int, action: MonitorAction, id: Seq<char>) -> int {
    match action {
        MonitorAction::SpawnStats(i) => if i@ == id {
            running + 1
        } else {
            running
        },
        MonitorAction::CancelStats(i) => if i@ == id {
            running - 1
        } else {
            running
        },
        _ => running,
    }
}

/// Streams of statistics of the container `id` that run after a series of
/// actions was carried out in order.
pub open spec fn stats_after_all(running: int, actions: Seq<MonitorAction>, id: Seq<char>) -> int
    decreases actions.len(),
{
    if actions.len() == 0 {
        running
    } else {
        stats_after(stats_after_all(running, actions.drop_last(), id), actions.last(), id)
    }
}

/// Streams of statistics of the container `id` that the monitor counts as
/// running: one if the container is active, else none.
pub open spec fn running(active: Seq<String>, id: Seq<char>) -> int {
    if holds_text(active, id) {
        1
    } else {
        0
    }
}

/// Carrying out `actions` in order keeps the streams of statistics in
/// step with the monitor: for every container, at every point on the way,
/// at most one stream runs, and in the end one runs exactly for the
/// containers that are active.
pub open spec fn keeps_one_stream(
    before: Seq<String>,
    actions: Seq<MonitorAction>,
    after: Seq<String>,
) -> bool {
    forall|id: Seq<char>|
        {
            &&& #[trigger] stats_after_all(running(before, id), actions, id) == running(after, id)
            &&& forall|k: int|
                0 <= k <= actions.len() ==> 0 <= #[trigger] stats_after_all(
                    running(before, id),
                    actions.take(k),
                    id,
                ) <= 1
        }
}

/// The texts of strings, in order.
pub open spec fn texts(ss: Seq<String>) -> Seq<Seq<char>> {
    Seq::new(ss.len(), |i: int| ss[i]@)
}

/// The containers whose streams a series of actions starts, in order.
pub open spec fn spawned(actions: Seq<MonitorAction>) -> Seq<Seq<char>>
    decreases actions.len(),
{
    if actions.len() == 0 {
        Seq::empty()
    } else {
        match actions.last() {
            MonitorAction::SpawnStats(id) => spawned(actions.drop_last()).push(id@),
            _ => spawned(actions.drop_last()),
        }
    }
}

/// The containers of a listing whose streams have to be started, in the
/// order of the listing: those that run, were not active before, and are
/// not listed earlier.
pub open spec fn ids_to_start(active: Seq<String>, summaries: Seq<ContainerSummary>) -> Seq<
    Seq<char>,
>
    decreases summaries.len(),
{
    if summaries.len() == 0 {
        Seq::empty()
    } else {
        let earlier = ids_to_start(active, summaries.drop_last());
        let id = short_id_of(text_or_empty(summaries.last().id));
        if state_of(summaries.last().state) == ContainerState::Running && !holds_text(active, id)
            && !earlier.contains(id) {
            earlier.push(id)
        } else {
            earlier
        }
    }
}

/// One of the strings has a text exactly when the text is among their
/// texts.
pub proof fn lemma_texts_hold(ss: Seq<String>, t: Seq<char>)
    ensures
        holds_text(ss, t) <==> texts(ss).contains(t),
{
    if holds_text(ss, t) {
        let i = choose|i: int| 0 <= i < ss.len() && (#[trigger] ss[i])@ == t;
        assert(texts(ss)[i] == t);
    }
    if texts(ss).contains(t) {
        let i = choose|i: int| 0 <= i < texts(ss).len() && texts(ss)[i] == t;
        assert(ss[i]@ == t);
    }
}

/// The kind of a lifecycle event, by the name of its action.
pub open spec fn spec_classify(action: Seq<char>) -> LifecycleKind {
    if action == "start"@ {
        LifecycleKind::Start
    } else if action == "die"@ || action == "stop"@ {
        LifecycleKind::Stop
    } else if action == "health_status"@ || action == "health_status: healthy"@ || action
        == "health_status: unhealthy"@ {
        LifecycleKind::Health
    } else {
        LifecycleKind::Other
    }
}

/// Sorts a lifecycle event by the name of its action.
pub fn classify(action: &str) -> (r: LifecycleKind)
    ensures
        r == spec_classify(action@),
{
    if crate::text::same_text(action, "start") {
        LifecycleKind::Start
    } else if crate::text::same_text(action, "die") || crate::text::same_text(action, "stop") {
        LifecycleKind::Stop
    } else if crate::text::same_text(action, "health_status") || crate::text::same_text(
        action,
        "health_status: healthy",
    ) || crate::text::same_text(action, "health_status: unhealthy") {
        LifecycleKind::Health
    } else {
        LifecycleKind::Other
    }
}

/// The short form of a container identifier.
pub fn short_id(id: &str) -> (r: String)
    ensures
        r@ == short_id_of(id@),
{
    take_chars(id, SHORT_ID_LEN)
}

/// A copy of an optional text.
fn copy_of(t: &Option<String>) -> (r: Option<String>)
    ensures
        r == *t,
{
    match t {
        Some(s) => Some(s.clone()),
        None => None,
    }
}

/// The state that an optional state text names.
fn read_state(text: &Option<String>) -> (r: ContainerState)
    ensures
        r == state_of(*text),
{
    match text {
        Some(t) => ContainerState::from_text(t.as_str()),
        None => ContainerState::Unknown,
    }
}

/// The health that an optional text names.
fn read_health(text: &Option<String>) -> (r: Option<HealthStatus>)
    ensures
        r == health_of(*text),
{
    match text {
        Some(t) => HealthStatus::from_text(t.as_str()),
        None => None,
    }
}

/// The name that the dashboard shows for an optional name.
fn read_name(text: &Option<String>) -> (r: String)
    ensures
        r@ == name_of(*text),
{
    match text {
        Some(n) => trim_leading(n.as_str(), '/'),
        None => String::new(),
    }
}

/// The position of a text among texts.
fn find_text(texts: &Vec<String>, t: &str) -> (r: Option<usize>)
    ensures
        r is Some == holds_text(texts@, t@),
        r matches Some(i) ==> i < texts@.len() && texts@[i as int]@ == t@,
{
    let mut i: usize = 0;
    while i < texts.len()
        invariant
            i <= texts@.len(),
            forall|k: int| 0 <= k < i ==> (#[trigger] texts@[k])@ != t@,
        decreases texts.len() - i,
    {
        if crate::text::same_text(texts[i].as_str(), t) {
            return Some(i);
        }
        i = i + 1;
    }
    None
}

/// The health that a health event carries: that of its attribute
/// `health_status`, or of `HealthStatus` where the first is missing.
pub fn health_from_attributes(attributes: &HealthAttributes) -> (r: Option<HealthStatus>)
    ensures
        r == match attributes.health_status {
            Some(t) => HealthStatus::spec_from_text(t@),
            None => health_of(attributes.alternative),
        },
{
    match &attributes.health_status {
        Some(t) => HealthStatus::from_text(t.as_str()),
        None => read_health(&attributes.alternative),
    }
}

/// Where the health of a health event comes from.
#[derive(Clone, Copy, Debug, PartialEq, Eq, Structural)]
pub enum HealthLookup {
    /// The event said it: this is the health, if any was made out.
    Known(Option<HealthStatus>),
    /// The event carried no attributes: the daemon has to be asked.
    AskDaemon,
}

/// Looks for the health in the attributes of a health event. Attributes
/// that name no health settle the matter; only an event without attributes
/// sends the monitor to the daemon.
pub fn lookup_health(attributes: &Option<HealthAttributes>) -> (r: HealthLookup)
    ensures
        r == match *attributes {
            Some(a) => HealthLookup::Known(
                match a.health_status {
                    Some(t) => HealthStatus::spec_from_text(t@),
                    None => health_of(a.alternative),
                },
            ),
            None => HealthLookup::AskDaemon,
        },
{
    match attributes {
        Some(a) => HealthLookup::Known(health_from_attributes(a)),
        None => HealthLookup::AskDaemon,
    }
}

/// The health in the daemon's answer, if it answered and the container has
/// a health check.
pub fn health_from_detail(detail: &Option<ContainerDetail>) -> (r: Option<HealthStatus>)
    ensures
        r == match *detail {
            Some(d) => health_of(d.health),
            None => None,
        },
{
    match detail {
        Some(d) => read_health(&d.health),
        None => None,
    }
}

/// The health that a health event settles on: what the event said; or,
/// where it carried no attributes and the daemon was asked, what the
/// daemon answered.
pub fn settled_health(lookup: HealthLookup, answer: &Option<ContainerDetail>) -> (r: Option<
    HealthStatus,
>)
    ensures
        r == match lookup {
            HealthLookup::Known(health) => health,
            HealthLookup::AskDaemon => match *answer {
                Some(d) => health_of(d.health),
                None => None,
            },
        },
{
    match lookup {
        HealthLookup::Known(health) => health,
        HealthLookup::AskDaemon => health_from_detail(answer),
    }
}

/// Adding an action to a series that keeps the streams in step keeps them
/// in step, if the action starts a stream for a container that has none or
/// cancels one for a container that has one, and the monitor follows; or
/// if it touches no stream.
proof fn lemma_keeps_one_stream_push(
    before: Seq<String>,
    actions: Seq<MonitorAction>,
    mid: Seq<String>,
    action: MonitorAction,
    after: Seq<String>,
)
    requires
        keeps_one_stream(before, actions, mid),
        forall|id: Seq<char>| #[trigger]
            running(after, id) == stats_after(running(mid, id), action, id),
    ensures
        keeps_one_stream(before, actions.push(action), after),
{
    let longer = actions.push(action);
    assert(longer.drop_last() =~= actions);
    assert forall|id: Seq<char>|
        {
            &&& #[trigger] stats_after_all(running(before, id), longer, id) == running(after, id)
            &&& forall|k: int|
                0 <= k <= longer.len() ==> 0 <= #[trigger] stats_after_all(
                    running(before, id),
                    longer.take(k),
                    id,
                ) <= 1
        } by {
        assert(stats_after_all(running(before, id), actions, id) == running(mid, id));
        assert(running(after, id) == stats_after(running(mid, id), action, id));
        assert forall|k: int| 0 <= k <= longer.len() implies 0 <= #[trigger] stats_after_all(
            running(before, id),
            longer.take(k),
            id,
        ) <= 1 by {
            if k == longer.len() {
                assert(longer.take(k) =~= longer);
            } else {
                assert(longer.take(k) =~= actions.take(k));
            }
        }
    }
}

/// Carrying out one series of actions after another is carrying out both
/// in a row.
pub proof fn lemma_stats_after_both(
    running: int,
    first: Seq<MonitorAction>,
    second: Seq<MonitorAction>,
    id: Seq<char>,
)
    ensures
        stats_after_all(running, first + second, id) == stats_after_all(
            stats_after_all(running, first, id),
            second,
            id,
        ),
    decreases second.len(),
{
    if second.len() == 0 {
        assert(first + second =~= first);
    } else {
        lemma_stats_after_both(running, first, second.drop_last(), id);
        assert((first + second).drop_last() =~= first + second.drop_last());
        assert((first + second).last() == second.last());
    }
}

/// What the monitor decides on one event after another keeps the streams
/// in step over the whole run: however many starts, stops and listings
/// come, and in whatever order, no container has two streams at any
/// instant, and in the end exactly the active containers have one.
pub proof fn lemma_keeps_one_stream_compose(
    before: Seq<String>,
    first: Seq<MonitorAction>,
    mid: Seq<String>,
    second: Seq<MonitorAction>,
    after: Seq<String>,
)
    requires
        keeps_one_stream(before, first, mid),
        keeps_one_stream(mid, second, after),
    ensures
        keeps_one_stream(before, first + second, after),
{
    let both = first + second;
    assert forall|id: Seq<char>|
        {
            &&& #[trigger] stats_after_all(running(before, id), both, id) == running(after, id)
            &&& forall|k: int|
                0 <= k <= both.len() ==> 0 <= #[trigger] stats_after_all(
                    running(before, id),
                    both.take(k),
                    id,
                ) <= 1
        } by {
        lemma_stats_after_both(running(before, id), first, second, id);
        assert(stats_after_all(running(before, id), first, id) == running(mid, id));
        assert(stats_after_all(running(mid, id), second, id) == running(after, id));
        assert forall|k: int| 0 <= k <= both.len() implies 0 <= #[trigger] stats_after_all(
            running(before, id),
            both.take(k),
            id,
        ) <= 1 by {
            if k <= first.len() {
                assert(both.take(k) =~= first.take(k));
            } else {
                let rest = k - first.len();
                assert(both.take(k) =~= first + second.take(rest));
                lemma_stats_after_both(running(before, id), first, second.take(rest), id);
                assert(0 <= stats_after_all(running(mid, id), second.take(rest), id) <= 1);
            }
        }
    }
}

/// Doing nothing keeps the streams in step.
proof fn lemma_keeps_one_stream_empty(active: Seq<String>)
    ensures
        keeps_one_stream(active, Seq::empty(), active),
{
    assert forall|id: Seq<char>|
        {
            &&& #[trigger] stats_after_all(running(active, id), Seq::empty(), id) == running(
                active,
                id,
            )
            &&& forall|k: int|
                0 <= k <= 0 ==> 0 <= #[trigger] stats_after_all(
                    running(active, id),
                    Seq::<MonitorAction>::empty().take(k),
                    id,
                ) <= 1
        } by {
        assert(Seq::<MonitorAction>::empty().take(0) =~= Seq::<MonitorAction>::empty());
    }
}

impl Monitor {
    /// No container is active twice.
    pub open spec fn wf(self) -> bool {
        distinct_texts(self.active@)
    }

    /// The monitor of a daemon, before anything was listed.
    pub fn new(host: MonitoredHost) -> (r: Monitor)
        ensures
            r.wf(),
            r.host == host,
            r.active@.len() == 0,
    {
        Monitor { host, active: Vec::new() }
    }

    /// Whether the statistics of a container are streamed.
    pub fn is_active(&self, id: &str) -> (r: bool)
        ensures
            r == holds_text(self.active@, id@),
    {
        find_text(&self.active, id).is_some()
    }

    /// The container that a listing entry describes.
    pub fn container_from_summary(&self, summary: &ContainerSummary) -> (c: Container)
        ensures
            describes_summary(c, self.host, *summary),
    {
        let id = match &summary.id {
            Some(full) => short_id(full.as_str()),
            None => {
                proof {
                    assert(short_id_of(Seq::<char>::empty()) =~= Seq::<char>::empty());
                }
                String::new()
            },
        };
        let created = match summary.created {
            Some(secs) => instant_from_unix_seconds(secs),
            None => None,
        };
        Container {
            id,
            name: read_name(&summary.first_name),
            state: read_state(&summary.state),
            health: read_health(&summary.status),
            created,
            stats: ContainerStats::default(),
            host_id: self.host.host_id.clone(),
            dozzle_url: copy_of(&self.host.dozzle_url),
        }
    }

    /// The container with the short identifier `id` that the daemon's
    /// answer describes.
    pub fn container_from_detail(&self, id: String, detail: &ContainerDetail) -> (c: Container)
        ensures
            describes_detail(c, self.host, id@, *detail),
    {
        let created = match &detail.created {
            Some(t) => parse_rfc3339(t.as_str()),
            None => None,
        };
        Container {
            id,
            name: read_name(&detail.name),
            state: read_state(&detail.status),
            health: read_health(&detail.health),
            created,
            stats: ContainerStats::default(),
            host_id: self.host.host_id.clone(),
            dozzle_url: copy_of(&self.host.dozzle_url),
        }
    }

    /// Marks a container as active. Returns whether it was not active
    /// before, so that its stream has to be started.
    fn activate(&mut self, id: &str) -> (started: bool)
        requires
            old(self).wf(),
        ensures
            final(self).wf(),
            final(self).host == old(self).host,
            started == !holds_text(old(self).active@, id@),
            !started ==> final(self).active == old(self).active,
            started ==> texts(final(self).active@) == texts(old(self).active@).push(id@),
            forall|other: Seq<char>| #[trigger]
                running(final(self).active@, other) == if started && other == id@ {
                    1
                } else {
                    running(old(self).active@, other)
                },
    {
        if find_text(&self.active, id).is_some() {
            return false;
        }
        let ghost before = self.active@;
        self.active.push(String::from_str(id));
        proof {
            let after = self.active@;
            let last = before.len() as int;
            assert(after[last]@ == id@);
            assert(texts(after) =~= texts(before).push(id@));
            assert forall|other: Seq<char>| #[trigger]
                running(after, other) == if other == id@ {
                    1
                } else {
                    running(before, other)
                } by {
                if other == id@ {
                    assert(holds_text(after, other));
                } else if holds_text(before, other) {
                    let i = choose|i: int| 0 <= i < before.len() && (#[trigger] before[i])@ == other;
                    assert(after[i]@ == other);
                } else if holds_text(after, other) {
                    let i = choose|i: int| 0 <= i < after.len() && (#[trigger] after[i])@ == other;
                    assert(before[i]@ == other);
                }
            }
            assert forall|i: int, j: int|
                0 <= i < after.len() && 0 <= j < after.len() && i != j implies (#[trigger] after[i])@
                != (#[trigger] after[j])@ by {
                if i < last {
                    assert(after[i] == before[i]);
                }
                if j < last {
                    assert(after[j] == before[j]);
                }
            }
        }
        true
    }

    /// Marks a container as no longer active. Returns whether it was
    /// active before, so that its stream has to be cancelled.
    fn deactivate(&mut self, id: &str) -> (stopped: bool)
        requires
            old(self).wf(),
        ensures
            final(self).wf(),
            final(self).host == old(self).host,
            stopped == holds_text(old(self).active@, id@),
            !stopped ==> final(self).active == old(self).active,
            stopped ==> texts(final(self).active@) == texts(old(self).active@).remove(
                texts(old(self).active@).index_of(id@),
            ),
            forall|other: Seq<char>| #[trigger]
                running(final(self).active@, other) == if other == id@ {
                    0
                } else {
                    running(old(self).active@, other)
                },
    {
        match find_text(&self.active, id) {
            Some(p) => {
                let ghost before = self.active@;
                let _ = self.active.remove(p);
                proof {
                    let after = self.active@;
                    let ts = texts(before);
                    assert(ts[p as int] == id@);
                    let q = ts.index_of(id@);
                    assert(0 <= q < ts.len() && ts[q] == id@);
                    if q != p {
                        assert(before[q]@ == before[p as int]@);
                    }
                    assert(texts(after) =~= ts.remove(p as int));
                    assert forall|i: int| 0 <= i < after.len() implies #[trigger] after[i]
                        == before[if i < p {
                        i
                    } else {
                        i + 1
                    }] by {}
                    assert forall|i: int, j: int|
                        0 <= i < after.len() && 0 <= j < after.len() && i != j implies (
                    #[trigger] after[i])@ != (#[trigger] after[j])@ by {
                        let i0 = if i < p {
                            i
                        } else {
                            i + 1
                        };
                        let j0 = if j < p {
                            j
                        } else {
                            j + 1
                        };
                        assert(after[i] == before[i0]);
                        assert(after[j] == before[j0]);
                    }
                    assert forall|other: Seq<char>| #[trigger]
                        running(after, other) == if other == id@ {
                            0
                        } else {
                            running(before, other)
                        } by {
                        if holds_text(after, other) {
                            let i = choose|i: int|
                                0 <= i < after.len() && (#[trigger] after[i])@ == other;
                            let i0 = if i < p {
                                i
                            } else {
                                i + 1
                            };
                            assert(after[i] == before[i0]);
                            assert(before[i0]@ == other);
                            if other == id@ {
                                assert(before[i0]@ == before[p as int]@);
                            }
                        } else if other != id@ && holds_text(before, other) {
                            let i = choose|i: int|
                                0 <= i < before.len() && (#[trigger] before[i])@ == other;
                            let i1 = if i < p {
                                i
                            } else {
                                i - 1
                            };
                            assert(after[i1] == before[i]);
                        }
                    }
                }
                true
            },
            None => false,
        }
    }

    /// The daemon listed its containers. Each becomes a tracked container;
    /// for each running one that has no stream of statistics yet, one is
    /// started; and the whole list goes to the state machine as one event.
    /// An empty listing asks for nothing.
    pub fn on_listing(&mut self, summaries: &Vec<ContainerSummary>) -> (actions: Vec<MonitorAction>)
        requires
            old(self).wf(),
        ensures
            final(self).wf(),
            final(self).host == old(self).host,
            keeps_one_stream(old(self).active@, actions@, final(self).active@),
            summaries@.len() == 0 ==> actions@.len() == 0,
            summaries@.len() > 0 ==> actions@.len() == ids_to_start(
                old(self).active@,
                summaries@,
            ).len() + 1,
            summaries@.len() > 0 ==> actions@.len() > 0 && (actions@.last() matches MonitorAction::Emit(
                AppEvent::InitialContainerList(host, list),
            ) && host == old(self).host.host_id && list@.len() == summaries@.len() && forall|i: int|
                0 <= i < list@.len() ==> describes_summary(
                    #[trigger] list@[i],
                    old(self).host,
                    summaries@[i],
                )),
            forall|k: int|
                0 <= k < actions@.len() - 1 ==> #[trigger] actions@[k] is SpawnStats,
            spawned(actions@) == ids_to_start(old(self).active@, summaries@),
            texts(final(self).active@) == texts(old(self).active@) + ids_to_start(
                old(self).active@,
                summaries@,
            ),
    {
        let mut actions: Vec<MonitorAction> = Vec::new();
        let mut containers: Vec<Container> = Vec::new();
        proof {
            lemma_keeps_one_stream_empty(self.active@);
            assert(summaries@.take(0) =~= Seq::<ContainerSummary>::empty());
            assert(texts(self.active@) =~= texts(self.active@) + Seq::<Seq<char>>::empty());
        }
        let mut i: usize = 0;
        while i < summaries.len()
            invariant
                i <= summaries@.len(),
                self.wf(),
                self.host == old(self).host,
                keeps_one_stream(old(self).active@, actions@, self.active@),
                containers@.len() == i,
                forall|j: int|
                    0 <= j < i ==> describes_summary(
                        #[trigger] containers@[j],
                        old(self).host,
                        summaries@[j],
                    ),
                forall|k: int| 0 <= k < actions@.len() ==> #[trigger] actions@[k] is SpawnStats,
                actions@.len() == ids_to_start(old(self).active@, summaries@.take(i as int)).len(),
                spawned(actions@) == ids_to_start(old(self).active@, summaries@.take(i as int)),
                texts(self.active@) == texts(old(self).active@) + ids_to_start(
                    old(self).active@,
                    summaries@.take(i as int),
                ),
            decreases summaries.len() - i,
        {
            let c = self.container_from_summary(&summaries[i]);
            let ghost mid = self.active@;
            let ghost so_far = actions@;
            let ghost started = ids_to_start(old(self).active@, summaries@.take(i as int));
            proof {
                let next = summaries@.take(i + 1);
                assert(next.drop_last() =~= summaries@.take(i as int));
                assert(next.last() == summaries@[i as int]);
                lemma_texts_hold(mid, c.id@);
                lemma_texts_hold(old(self).active@, c.id@);
                assert(texts(mid).contains(c.id@) <==> texts(old(self).active@).contains(c.id@)
                    || started.contains(c.id@)) by {
                    let whole = texts(old(self).active@) + started;
                    if whole.contains(c.id@) {
                        let k = choose|k: int| 0 <= k < whole.len() && whole[k] == c.id@;
                        if k < texts(old(self).active@).len() {
                            assert(texts(old(self).active@)[k] == c.id@);
                        } else {
                            assert(started[k - texts(old(self).active@).len()] == c.id@);
                        }
                    }
                    if texts(old(self).active@).contains(c.id@) {
                        let k = choose|k: int|
                            0 <= k < texts(old(self).active@).len() && texts(old(self).active@)[k]
                                == c.id@;
                        assert(whole[k] == c.id@);
                    }
                    if started.contains(c.id@) {
                        let k = choose|k: int| 0 <= k < started.len() && started[k] == c.id@;
                        assert(whole[texts(old(self).active@).len() + k] == c.id@);
                    }
                }
            }
            if c.state == ContainerState::Running {
                if self.activate(c.id.as_str()) {
                    let id = c.id.clone();
                    let ghost action = MonitorAction::SpawnStats(id);
                    actions.push(MonitorAction::SpawnStats(id));
                    proof {
                        lemma_keeps_one_stream_push(
                            old(self).active@,
                            so_far,
                            mid,
                            action,
                            self.active@,
                        );
                        assert(actions@ == so_far.push(action));
                        assert(actions@.drop_last() =~= so_far);
                        assert(texts(self.active@) =~= texts(old(self).active@) + started.push(
                            c.id@,
                        ));
                    }
                }
            }
            containers.push(c);
            i = i + 1;
        }
        proof {
            assert(summaries@.take(i as int) =~= summaries@);
        }
        if containers.len() > 0 {
            let ghost so_far = actions@;
            let ghost list = containers;
            let event = AppEvent::InitialContainerList(self.host.host_id.clone(), containers);
            let ghost action = MonitorAction::Emit(event);
            actions.push(MonitorAction::Emit(event));
            proof {
                lemma_keeps_one_stream_push(
                    old(self).active@,
                    so_far,
                    self.active@,
                    action,
                    self.active@,
                );
                assert(actions@ == so_far.push(action));
                assert(actions@.last() == action);
                assert(actions@.drop_last() =~= so_far);
            }
        }
        actions
    }

    /// A container was started. If the daemon described it and it has no
    /// stream of statistics yet, it goes to the state machine and a stream
    /// is started for it; else nothing happens.
    pub fn on_start(&mut self, container_id: &str, detail: &Option<ContainerDetail>) -> (actions:
        Vec<MonitorAction>)
        requires
            old(self).wf(),
        ensures
            final(self).wf(),
            final(self).host == old(self).host,
            keeps_one_stream(old(self).active@, actions@, final(self).active@),
            if *detail is Some && !holds_text(old(self).active@, short_id_of(container_id@)) {
                &&& actions@.len() == 2
                &&& actions@[0] matches MonitorAction::Emit(AppEvent::ContainerCreated(c))
                &&& describes_detail(c, old(self).host, short_id_of(container_id@), detail->0)
                &&& actions@[1] matches MonitorAction::SpawnStats(id)
                &&& id@ == short_id_of(container_id@)
                &&& texts(final(self).active@) == texts(old(self).active@).push(
                    short_id_of(container_id@),
                )
            } else {
                &&& actions@.len() == 0
                &&& final(self).active == old(self).active
            },
    {
        let mut actions: Vec<MonitorAction> = Vec::new();
        proof {
            lemma_keeps_one_stream_empty(self.active@);
        }
        let short = short_id(container_id);
        match detail {
            Some(d) => {
                let ghost before = self.active@;
                if self.activate(short.as_str()) {
                    let spawn = short.clone();
                    let c = self.container_from_detail(short, d);
                    let ghost emit = MonitorAction::Emit(AppEvent::ContainerCreated(c));
                    let ghost start = MonitorAction::SpawnStats(spawn);
                    actions.push(MonitorAction::Emit(AppEvent::ContainerCreated(c)));
                    actions.push(MonitorAction::SpawnStats(spawn));
                    proof {
                        lemma_keeps_one_stream_push(
                            before,
                            Seq::empty(),
                            before,
                            emit,
                            before,
                        );
                        lemma_keeps_one_stream_push(
                            before,
                            Seq::empty().push(emit),
                            before,
                            start,
                            self.active@,
                        );
                        assert(actions@ =~= Seq::empty().push(emit).push(start));
                        assert(running(self.active@, short_id_of(container_id@)) == 1);
                    }
                }
            },
            None => {},
        }
        actions
    }

    /// A container stopped or died. If its statistics are streamed, the
    /// stream is cancelled first, and then the container's departure goes
    /// to the state machine, so that no statistics can follow it; else
    /// nothing happens.
    pub fn on_stop(&mut self, container_id: &str) -> (actions: Vec<MonitorAction>)
        requires
            old(self).wf(),
        ensures
            final(self).wf(),
            final(self).host == old(self).host,
            keeps_one_stream(old(self).active@, actions@, final(self).active@),
            !holds_text(final(self).active@, short_id_of(container_id@)),
            if holds_text(old(self).active@, short_id_of(container_id@)) {
                &&& actions@.len() == 2
                &&& actions@[0] matches MonitorAction::CancelStats(id)
                &&& id@ == short_id_of(container_id@)
                &&& actions@[1] matches MonitorAction::Emit(AppEvent::ContainerDestroyed(key))
                &&& key@ == (old(self).host.host_id@, short_id_of(container_id@))
                &&& texts(final(self).active@) == texts(old(self).active@).remove(
                    texts(old(self).active@).index_of(short_id_of(container_id@)),
                )
            } else {
                &&& actions@.len() == 0
                &&& final(self).active == old(self).active
            },
    {
        let mut actions: Vec<MonitorAction> = Vec::new();
        proof {
            lemma_keeps_one_stream_empty(self.active@);
        }
        let short = short_id(container_id);
        let ghost before = self.active@;
        if self.deactivate(short.as_str()) {
            let key = ContainerKey::new(self.host.host_id.clone(), short.clone());
            let ghost cancel = MonitorAction::CancelStats(short);
            let ghost emit = MonitorAction::Emit(AppEvent::ContainerDestroyed(key));
            actions.push(MonitorAction::CancelStats(short));
            actions.push(MonitorAction::Emit(AppEvent::ContainerDestroyed(key)));
            proof {
                lemma_keeps_one_stream_push(before, Seq::empty(), before, cancel, self.active@);
                lemma_keeps_one_stream_push(
                    before,
                    Seq::empty().push(cancel),
                    self.active@,
                    emit,
                    self.active@,
                );
                assert(actions@ =~= Seq::empty().push(cancel).push(emit));
            }
        }
        proof {
            assert(running(self.active@, short_id_of(container_id@)) == 0);
        }
        actions
    }

    /// The health of a container changed. Where a health was made out, it
    /// goes to the state machine; else nothing happens.
    pub fn on_health(&self, container_id: &str, health: Option<HealthStatus>) -> (actions: Vec<
        MonitorAction,
    >)
        ensures
            match health {
                Some(h) => {
                    &&& actions@.len() == 1
                    &&& actions@[0] matches MonitorAction::Emit(
                        AppEvent::ContainerHealthChanged(key, status),
                    )
                    &&& key@ == (self.host.host_id@, short_id_of(container_id@))
                    &&& status == h
                },
                None => actions@.len() == 0,
            },
    {
        let mut actions: Vec<MonitorAction> = Vec::new();
        match health {
            Some(h) => {
                let key = ContainerKey::new(self.host.host_id.clone(), short_id(container_id));
                actions.push(MonitorAction::Emit(AppEvent::ContainerHealthChanged(key, h)));
            },
            None => {},
        }
        actions
    }

    /// The daemon's event stream failed: wait a second, then listen again.
    pub fn on_stream_error(&self) -> (action: MonitorAction)
        ensures
            action == MonitorAction::Pause(RETRY_DELAY_SECS),
    {
        MonitorAction::Pause(RETRY_DELAY_SECS)
    }
}

} // verus!
