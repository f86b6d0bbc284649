//! Plain data shared by every part of the dashboard core.

use crate::text::{contains_text, lowercase, lowercase_of, same_text, text_contains};
use crate::time::Timestamp;
use vstd::prelude::*;

verus! {

/// Identifies the Docker daemon a container belongs to.
pub type HostId = String;

/// Container state as the daemon reports it.
#[derive(Clone, Copy, Debug, PartialEq, Eq, Structural)]
pub enum ContainerState {
    Running,
    Paused,
    Restarting,
    Removing,
    Exited,
    Dead,
    Created,
    Unknown,
}

/// Result of a container's health check.
#[derive(Clone, Copy, Debug, PartialEq, Eq, Structural)]
pub enum HealthStatus {
    Healthy,
    Unhealthy,
    Starting,
}

impl ContainerState {
    /// The state that a status text names: the first of the state words,
    /// in the order of the enum, that occurs in the lower-cased text.
    pub open spec fn spec_from_text(s: Seq<char>) -> ContainerState {
        let lower = lowercase_of(s);
        if text_contains(lower, "running"@) {
            ContainerState::Running
        } else if text_contains(lower, "paused"@) {
            ContainerState::Paused
        } else if text_contains(lower, "restarting"@) {
            ContainerState::Restarting
        } else if text_contains(lower, "removing"@) {
            ContainerState::Removing
        } else if text_contains(lower, "exited"@) {
            ContainerState::Exited
        } else if text_contains(lower, "dead"@) {
            ContainerState::Dead
        } else if text_contains(lower, "created"@) {
            ContainerState::Created
        } else {
            ContainerState::Unknown
        }
    }

    /// Reads a state from a status text, ignoring case. A text that names
    /// no state gives `Unknown`.
    pub fn from_text(s: &str) -> (r: ContainerState)
        ensures
            r == Self::spec_from_text(s@),
    {
        let lower = lowercase(s);
        let l = lower.as_str();
        if contains_text(l, "running") {
            ContainerState::Running
        } else if contains_text(l, "paused") {
            ContainerState::Paused
        } else if contains_text(l, "restarting") {
            ContainerState::Restarting
        } else if contains_text(l, "removing") {
            ContainerState::Removing
        } else if contains_text(l, "exited") {
            ContainerState::Exited
        } else if contains_text(l, "dead") {
            ContainerState::Dead
        } else if contains_text(l, "created") {
            ContainerState::Created
        } else {
            ContainerState::Unknown
        }
    }
}

impl std::str::FromStr for ContainerState {
    type Err = ();

    /// Never fails: a text that names no state reads as `Unknown`.
    fn from_str(s: &str) -> (r: Result<Self, Self::Err>)
        ensures
            r == Ok::<ContainerState, ()>(ContainerState::spec_from_text(s@)),
    {
        Ok(ContainerState::from_text(s))
    }
}

impl HealthStatus {
    /// The health that a status text names, if any. "unhealthy" holds
    /// "healthy", so it is looked for first.
    pub open spec fn spec_from_text(s: Seq<char>) -> Option<HealthStatus> {
        let lower = lowercase_of(s);
        if text_contains(lower, "unhealthy"@) {
            Some(HealthStatus::Unhealthy)
        } else if text_contains(lower, "healthy"@) {
            Some(HealthStatus::Healthy)
        } else if text_contains(lower, "starting"@) {
            Some(HealthStatus::Starting)
        } else {
            None
        }
    }

    /// Reads a health status from a status text, ignoring case. A text that
    /// names none gives `None`.
    pub fn from_text(s: &str) -> (r: Option<HealthStatus>)
        ensures
            r == Self::spec_from_text(s@),
    {
        let lower = lowercase(s);
        let l = lower.as_str();
        if contains_text(l, "unhealthy") {
            Some(HealthStatus::Unhealthy)
        } else if contains_text(l, "healthy") {
            Some(HealthStatus::Healthy)
        } else if contains_text(l, "starting") {
            Some(HealthStatus::Starting)
        } else {
            None
        }
    }
}

impl std::str::FromStr for HealthStatus {
    type Err = ();

    /// Fails on exactly the texts that name no health status.
    fn from_str(s: &str) -> (r: Result<Self, Self::Err>)
        ensures
            r == match HealthStatus::spec_from_text(s@) {
                Some(h) => Ok::<HealthStatus, ()>(h),
                None => Err::<HealthStatus, ()>(()),
            },
    {
        match HealthStatus::from_text(s) {
            Some(h) => Ok(h),
            None => Err(()),
        }
    }
}

/// Runtime statistics of a container, overwritten as a whole on each tick.
#[derive(Clone, Copy, Debug, PartialEq, Eq, Structural)]
pub struct ContainerStats {
    /// CPU usage in hundredths of a percent.
    pub cpu: u32,
    /// Memory usage in hundredths of a percent.
    pub memory: u32,
    /// Network transmit rate in bytes per second.
    pub network_tx_bytes_per_sec: u64,
    /// Network receive rate in bytes per second.
    pub network_rx_bytes_per_sec: u64,
}

impl Default for ContainerStats {
    fn default() -> (r: Self)
        ensures
            r.cpu == 0,
            r.memory == 0,
            r.network_tx_bytes_per_sec == 0,
            r.network_rx_bytes_per_sec == 0,
    {
        ContainerStats {
            cpu: 0,
            memory: 0,
            network_tx_bytes_per_sec: 0,
            network_rx_bytes_per_sec: 0,
        }
    }
}

/// How heavily a resource is used.
#[derive(Clone, Copy, Debug, PartialEq, Eq, Structural)]
pub enum UsageLevel {
    Low,
    Medium,
    High,
}

/// Usage above which a resource counts as moderately used: 50 %.
pub const MEDIUM_USAGE: u32 = 5000;

/// Usage above which a resource counts as heavily used: 80 %.
pub const HIGH_USAGE: u32 = 8000;

/// The level of a usage given in hundredths of a percent.
pub open spec fn spec_usage_level(value: u32) -> UsageLevel {
    if value > HIGH_USAGE {
        UsageLevel::High
    } else if value > MEDIUM_USAGE {
        UsageLevel::Medium
    } else {
        UsageLevel::Low
    }
}

/// Classifies a usage given in hundredths of a percent: above 80 % high,
/// above 50 % medium, else low.
pub fn get_percentage_style(value: u32) -> (r: UsageLevel)
    ensures
        r == spec_usage_level(value),
{
    if value > HIGH_USAGE {
        UsageLevel::High
    } else if value > MEDIUM_USAGE {
        UsageLevel::Medium
    } else {
        UsageLevel::Low
    }
}

/// A container as the dashboard tracks it.
#[derive(Debug)]
pub struct Container {
    /// Identifier, truncated by the daemon to twelve characters.
    pub id: String,
    pub name: String,
    pub state: ContainerState,
    /// `None` when the container has no health check.
    pub health: Option<HealthStatus>,
    /// When the container was created, if known.
    pub created: Option<Timestamp>,
    pub stats: ContainerStats,
    pub host_id: HostId,
    /// Address of an external log viewer for the container's host.
    pub dozzle_url: Option<String>,
}

impl Clone for Container {
    fn clone(&self) -> (r: Self)
        ensures
            r == *self,
    {
        Container {
            id: self.id.clone(),
            name: self.name.clone(),
            state: self.state,
            health: self.health,
            created: self.created,
            stats: self.stats,
            host_id: self.host_id.clone(),
            dozzle_url: match &self.dozzle_url {
                Some(u) => Some(u.clone()),
                None => None,
            },
        }
    }
}

/// Identity of a container across hosts.
#[derive(Debug, Hash)]
pub struct ContainerKey {
    pub host_id: HostId,
    pub container_id: String,
}

impl View for ContainerKey {
    type V = (Seq<char>, Seq<char>);

    open spec fn view(&self) -> (Seq<char>, Seq<char>) {
        (self.host_id@, self.container_id@)
    }
}

impl Clone for ContainerKey {
    fn clone(&self) -> (r: Self)
        ensures
            r == *self,
    {
        ContainerKey { host_id: self.host_id.clone(), container_id: self.container_id.clone() }
    }
}

impl PartialEq for ContainerKey {
    fn eq(&self, other: &Self) -> (r: bool) {
        same_text(self.host_id.as_str(), other.host_id.as_str()) && same_text(
            self.container_id.as_str(),
            other.container_id.as_str(),
        )
    }
}

impl vstd::std_specs::cmp::PartialEqSpecImpl for ContainerKey {
    open spec fn obeys_eq_spec() -> bool {
        true
    }

    open spec fn eq_spec(&self, other: &Self) -> bool {
        self@ == other@
    }
}

impl Eq for ContainerKey {

}

impl ContainerKey {
    /// The key made of a host and a container identifier.
    pub fn new(host_id: HostId, container_id: String) -> (r: ContainerKey)
        ensures
            r.host_id == host_id,
            r.container_id == container_id,
    {
        ContainerKey { host_id, container_id }
    }

    /// Whether two keys name the same container.
    pub fn same_as(&self, other: &ContainerKey) -> (r: bool)
        ensures
            r == (self@ == other@),
    {
        same_text(self.host_id.as_str(), other.host_id.as_str()) && same_text(
            self.container_id.as_str(),
            other.container_id.as_str(),
        )
    }
}

impl Container {
    /// The key under which the container is tracked.
    pub open spec fn key_view(self) -> (Seq<char>, Seq<char>) {
        (self.host_id@, self.id@)
    }

    /// The key under which the container is tracked.
    pub fn key(&self) -> (r: ContainerKey)
        ensures
            r@ == self.key_view(),
    {
        ContainerKey { host_id: self.host_id.clone(), container_id: self.id.clone() }
    }

    /// Whether the container is tracked under `key`.
    pub fn has_key(&self, key: &ContainerKey) -> (r: bool)
        ensures
            r == (self.key_view() == key@),
    {
        same_text(self.host_id.as_str(), key.host_id.as_str()) && same_text(
            self.id.as_str(),
            key.container_id.as_str(),
        )
    }
}

/// What the dashboard shows.
#[derive(Debug)]
pub enum ViewState {
    /// The list of containers.
    ContainerList,
    /// The logs of one container.
    LogView(ContainerKey),
    /// The menu of actions for one container.
    ActionMenu(ContainerKey),
    /// The list of containers, with the filter text being edited.
    SearchMode,
}

impl Clone for ViewState {
    fn clone(&self) -> (r: Self)
        ensures
            r == *self,
    {
        match self {
            ViewState::ContainerList => ViewState::ContainerList,
            ViewState::LogView(k) => ViewState::LogView(k.clone()),
            ViewState::ActionMenu(k) => ViewState::ActionMenu(k.clone()),
            ViewState::SearchMode => ViewState::SearchMode,
        }
    }
}

/// A command that can be given to a container.
#[derive(Clone, Copy, Debug, PartialEq, Eq, Structural)]
pub enum ContainerAction {
    Start,
    Stop,
    Restart,
    Remove,
}

impl ContainerAction {
    /// The actions offered for a container in the given state, in menu
    /// order.
    pub open spec fn spec_available_for_state(state: ContainerState) -> Seq<ContainerAction> {
        match state {
            ContainerState::Running => seq![
                ContainerAction::Stop,
                ContainerAction::Restart,
                ContainerAction::Remove,
            ],
            ContainerState::Paused => seq![ContainerAction::Stop, ContainerAction::Remove],
            ContainerState::Exited | ContainerState::Created | ContainerState::Dead => seq![
                ContainerAction::Start,
                ContainerAction::Remove,
            ],
            ContainerState::Restarting | ContainerState::Removing | ContainerState::Unknown => {
                Seq::empty()
            },
        }
    }

    /// The name shown for the action.
    pub fn display_name(self) -> (r: &'static str)
        ensures
            r@ == match self {
                ContainerAction::Start => "Start"@,
                ContainerAction::Stop => "Stop"@,
                ContainerAction::Restart => "Restart"@,
                ContainerAction::Remove => "Remove"@,
            },
    {
        match self {
            ContainerAction::Start => "Start",
            ContainerAction::Stop => "Stop",
            ContainerAction::Restart => "Restart",
            ContainerAction::Remove => "Remove",
        }
    }

    /// The actions offered for a container in the given state, in menu
    /// order. A container in transition, or in an unknown state, is offered
    /// none.
    pub fn available_for_state(state: &ContainerState) -> (r: Vec<ContainerAction>)
        ensures
            r@ == Self::spec_available_for_state(*state),
    {
        let mut r: Vec<ContainerAction> = Vec::new();
        match state {
            ContainerState::Running => {
                r.push(ContainerAction::Stop);
                r.push(ContainerAction::Restart);
                r.push(ContainerAction::Remove);
            },
            ContainerState::Paused => {
                r.push(ContainerAction::Stop);
                r.push(ContainerAction::Remove);
            },
            ContainerState::Exited | ContainerState::Created | ContainerState::Dead => {
                r.push(ContainerAction::Start);
                r.push(ContainerAction::Remove);
            },
            ContainerState::Restarting | ContainerState::Removing | ContainerState::Unknown => {},
        }
        assert(r@ =~= Self::spec_available_for_state(*state));
        r
    }
}

/// Direction in which the container list is ordered.
#[derive(Clone, Copy, Debug, PartialEq, Eq, Structural)]
pub enum SortDirection {
    Ascending,
    Descending,
}

impl SortDirection {
    /// The opposite direction.
    pub open spec fn spec_toggle(self) -> SortDirection {
        match self {
            SortDirection::Ascending => SortDirection::Descending,
            SortDirection::Descending => SortDirection::Ascending,
        }
    }

    /// Flips the direction.
    pub fn toggle(self) -> (r: SortDirection)
        ensures
            r == self.spec_toggle(),
    {
        match self {
            SortDirection::Ascending => SortDirection::Descending,
            SortDirection::Descending => SortDirection::Ascending,
        }
    }

    /// The symbol shown for the direction in a column header.
    pub fn symbol(self) -> (r: &'static str)
        ensures
            r@ == match self {
                SortDirection::Ascending => "▲"@,
                SortDirection::Descending => "▼"@,
            },
    {
        match self {
            SortDirection::Ascending => "▲",
            SortDirection::Descending => "▼",
        }
    }
}

/// The column by which the container list is ordered within a host.
#[derive(Clone, Copy, Debug, PartialEq, Eq, Structural)]
pub enum SortField {
    /// By creation time.
    Uptime,
    /// By container name.
    Name,
    /// By CPU usage.
    Cpu,
    /// By memory usage.
    Memory,
}

impl SortField {
    /// The field after this one in the cycle Uptime, Name, Cpu, Memory.
    pub open spec fn spec_next(self) -> SortField {
        match self {
            SortField::Uptime => SortField::Name,
            SortField::Name => SortField::Cpu,
            SortField::Cpu => SortField::Memory,
            SortField::Memory => SortField::Uptime,
        }
    }

    /// The direction a field starts with: names ascending, everything else
    /// descending, so that the newest and the highest come first.
    pub open spec fn spec_default_direction(self) -> SortDirection {
        match self {
            SortField::Name => SortDirection::Ascending,
            SortField::Uptime => SortDirection::Descending,
            SortField::Cpu => SortDirection::Descending,
            SortField::Memory => SortDirection::Descending,
        }
    }

    /// Cycles to the next sort field.
    pub fn next(self) -> (r: SortField)
        ensures
            r == self.spec_next(),
    {
        match self {
            SortField::Uptime => SortField::Name,
            SortField::Name => SortField::Cpu,
            SortField::Cpu => SortField::Memory,
            SortField::Memory => SortField::Uptime,
        }
    }

    /// The direction the field starts with.
    pub fn default_direction(self) -> (r: SortDirection)
        ensures
            r == self.spec_default_direction(),
    {
        match self {
            SortField::Name => SortDirection::Ascending,
            SortField::Uptime => SortDirection::Descending,
            SortField::Cpu => SortDirection::Descending,
            SortField::Memory => SortDirection::Descending,
        }
    }
}

/// Sort field and direction together.
#[derive(Clone, Copy, Debug, PartialEq, Eq, Structural)]
pub struct SortState {
    pub field: SortField,
    pub direction: SortDirection,
}

impl SortState {
    /// The sort state of a field in its default direction.
    pub open spec fn spec_new(field: SortField) -> SortState {
        SortState { field, direction: field.spec_default_direction() }
    }

    /// A sort state with the default direction of the field.
    pub fn new(field: SortField) -> (r: SortState)
        ensures
            r == Self::spec_new(field),
    {
        SortState { field, direction: field.default_direction() }
    }
}

impl Default for SortState {
    fn default() -> (r: Self)
        ensures
            r == SortState::spec_new(SortField::Uptime),
    {
        SortState::new(SortField::Uptime)
    }
}

/// One line of a container's log.
#[derive(Debug)]
pub struct LogEntry {
    /// When the line was written.
    pub timestamp: Timestamp,
    /// The line after its timestamp, as the daemon sent it.
    pub message: String,
}

impl Clone for LogEntry {
    fn clone(&self) -> (r: Self)
        ensures
            r == *self,
    {
        LogEntry { timestamp: self.timestamp, message: self.message.clone() }
    }
}

/// A key pressed while the filter text is being edited.
#[derive(Clone, Copy, Debug, PartialEq, Eq, Structural)]
pub enum SearchKey {
    Char(char),
    Backspace,
    Delete,
    Left,
    Right,
    Home,
    End,
    Enter,
    Esc,
    Other,
}

/// Everything that can happen to the dashboard. Producers push events; the
/// state machine alone consumes them.
#[derive(Debug)]
pub enum AppEvent {
    /// The containers of a host, as first listed.
    InitialContainerList(HostId, Vec<Container>),
    /// A container was started.
    ContainerCreated(Container),
    /// A container stopped or was removed.
    ContainerDestroyed(ContainerKey),
    /// A container changed state.
    ContainerStateChanged(ContainerKey, ContainerState),
    /// New statistics for a container.
    ContainerStat(ContainerKey, ContainerStats),
    /// A container's health check changed its verdict.
    ContainerHealthChanged(ContainerKey, HealthStatus),
    /// The operator asked to quit.
    Quit,
    /// The terminal was resized.
    Resize,
    /// Move the selection up.
    SelectPrevious,
    /// Move the selection down.
    SelectNext,
    /// The Enter key.
    EnterPressed,
    /// Leave the log view.
    ExitLogView,
    /// Scroll the log one line up.
    ScrollUp,
    /// Scroll the log one line down.
    ScrollDown,
    /// Scroll to the oldest loaded line.
    ScrollToTop,
    /// Scroll to the newest line and follow.
    ScrollToBottom,
    /// Scroll half a page up.
    ScrollPageUp,
    /// Scroll half a page down.
    ScrollPageDown,
    /// A new line from the live tail.
    LogLine(ContainerKey, LogEntry),
    /// A batch of older lines, and whether more history may exist.
    LogBatchPrepend(ContainerKey, Vec<LogEntry>, bool),
    /// Ask for the page of history before the loaded lines.
    RequestOlderLogs,
    /// Open the external log viewer for the selected container.
    OpenDozzle,
    /// Show or hide the help.
    ToggleHelp,
    /// Sort by the next field.
    CycleSortField,
    /// Sort by the given field, or flip the direction if it is the
    /// current one.
    SetSortField(SortField),
    /// Show or hide containers that are not running.
    ToggleShowAll,
    /// Show the containers of one host only, or of all.
    SelectHost(Option<HostId>),
    /// Open the action menu for the selected container.
    ShowActionMenu,
    /// Close the action menu.
    CancelActionMenu,
    /// Move up in the action menu.
    SelectActionUp,
    /// Move down in the action menu.
    SelectActionDown,
    /// Run the selected action.
    ExecuteAction,
    /// An action was handed to the daemon.
    ActionInProgress(ContainerKey, ContainerAction),
    /// An action succeeded.
    ActionSuccess(ContainerKey, ContainerAction),
    /// An action failed, with the daemon's message.
    ActionError(ContainerKey, ContainerAction, String),
    /// Begin editing the filter text.
    EnterSearchMode,
    /// Stop editing and clear the filter text.
    ExitSearchMode,
    /// A key for the filter text.
    SearchKeyEvent(SearchKey),
    /// A host could not be reached, with the reason.
    ConnectionError(HostId, String),
    /// A host was reached.
    HostConnected(HostId),
}

} // verus!
