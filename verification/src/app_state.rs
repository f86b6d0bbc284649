//! The application state: the single owner of everything the dashboard
//! shows. Events change it; nothing else does.

use crate::log_state::LogState;
use crate::pagination::OlderLogsRequest;
use crate::projection::{
    host_view, is_visible_order, is_visible_selection, keys_follow, keys_in_order,
    lemma_visible_order_selects, visible_order,
};
use crate::search_input::SearchInput;
use crate::types::{
    Container, ContainerAction, ContainerKey, HostId, SortField, SortState, ViewState,
};
use vstd::prelude::*;

verus! {

/// Seconds for which a connection error is shown.
pub const NOTICE_LIFETIME_SECS: u64 = 10;

/// Work that the state machine asks of its surroundings. It never does any
/// of it itself.
#[derive(Debug)]
pub enum Effect {
    /// Start the live tail of a container's log.
    StartLogStream(ContainerKey),
    /// Cancel the running live tail.
    StopLogStream,
    /// Fetch the batch of lines before the loaded ones.
    FetchOlderLogs(OlderLogsRequest),
    /// Give a command to a container.
    RunAction(ContainerKey, ContainerAction),
    /// Open an address in the operator's browser.
    OpenUrl(String),
}

/// What handling one event asks for.
#[derive(Debug)]
pub struct Outcome {
    /// Whether the change must be drawn at once.
    pub redraw: bool,
    /// Work to be done, if any.
    pub effect: Option<Effect>,
}

impl Outcome {
    /// Nothing to draw, nothing to do.
    pub fn ignored() -> (r: Outcome)
        ensures
            r == (Outcome { redraw: false, effect: None }),
    {
        Outcome { redraw: false, effect: None }
    }

    /// Draw at once.
    pub fn drawn() -> (r: Outcome)
        ensures
            r == (Outcome { redraw: true, effect: None }),
    {
        Outcome { redraw: true, effect: None }
    }
}

/// A connection error on display.
#[derive(Debug)]
pub struct ConnectionNotice {
    pub host_id: HostId,
    pub message: String,
    /// Reading of the clock when the error came, in seconds.
    pub at: u64,
}

/// Everything the dashboard shows and the choices that shape it.
#[derive(Debug)]
pub struct AppState {
    /// The tracked containers in order of arrival, each key once.
    pub containers: Vec<Container>,
    /// The shown list, as positions in `containers`.
    pub order: Vec<usize>,
    /// The shown list, as keys.
    pub sorted_container_keys: Vec<ContainerKey>,
    /// Whether the operator asked to quit.
    pub should_quit: bool,
    /// Position of the selected row in the shown list.
    pub selected: Option<usize>,
    /// What is on screen.
    pub view_state: ViewState,
    /// The log being viewed; present exactly in the log view.
    pub log: Option<LogState>,
    /// Whether a live tail was asked for the log being viewed, and has not
    /// been cancelled since.
    pub log_stream_active: bool,
    /// Height in lines of the log view when last drawn.
    pub last_viewport_height: usize,
    /// The hosts that are connected.
    pub connected_hosts: Vec<HostId>,
    /// Whether the dashboard runs in a remote shell, where no browser can
    /// be opened.
    pub is_ssh_session: bool,
    /// Whether the help is shown.
    pub show_help: bool,
    /// Field and direction of the sort.
    pub sort_state: SortState,
    /// Whether containers that are not running are shown.
    pub show_all_containers: bool,
    /// The one host whose containers are shown, if any.
    pub host_filter: Option<HostId>,
    /// Position of the selected entry in the action menu.
    pub action_selected: Option<usize>,
    /// The filter text.
    pub search_input: SearchInput,
    /// Connection errors on display.
    pub connection_errors: Vec<ConnectionNotice>,
    /// Reading of a clock in seconds, set by the event loop.
    pub clock: u64,
}

/// A container with the given key is tracked.
pub open spec fn holds_key(cs: Seq<Container>, key: (Seq<char>, Seq<char>)) -> bool {
    exists|i: int| 0 <= i < cs.len() && (#[trigger] cs[i]).key_view() == key
}

/// The position at which the container with the given key is tracked.
pub open spec fn position(cs: Seq<Container>, key: (Seq<char>, Seq<char>)) -> int {
    choose|i: int| 0 <= i < cs.len() && (#[trigger] cs[i]).key_view() == key
}

/// No two tracked containers have the same key.
pub open spec fn distinct_keys(cs: Seq<Container>) -> bool {
    forall|i: int, j: int|
        0 <= i < cs.len() && 0 <= j < cs.len() && i != j ==> (#[trigger] cs[i]).key_view() != (
        #[trigger] cs[j]).key_view()
}

/// The tracked containers after `c` arrived: it takes the place of the
/// container with its key, or the last place if its key is new.
pub open spec fn upserted(cs: Seq<Container>, c: Container) -> Seq<Container> {
    if holds_key(cs, c.key_view()) {
        cs.update(position(cs, c.key_view()), c)
    } else {
        cs.push(c)
    }
}

/// The tracked containers without the one with the given key.
pub open spec fn without_key(cs: Seq<Container>, key: (Seq<char>, Seq<char>)) -> Seq<Container> {
    if holds_key(cs, key) {
        cs.remove(position(cs, key))
    } else {
        cs
    }
}

/// The selection after the shown list changed to `len` rows: an empty list
/// has none; a selection past the end moves to the last row; with no
/// selection the first row is selected.
pub open spec fn adjusted(selected: Option<usize>, len: nat) -> Option<usize> {
    if len == 0 {
        None
    } else {
        match selected {
            Some(s) => if s >= len {
                Some((len - 1) as usize)
            } else {
                Some(s)
            },
            None => Some(0),
        }
    }
}

/// A host with the given name is connected.
pub open spec fn connected(hosts: Seq<String>, host: Seq<char>) -> bool {
    exists|i: int| 0 <= i < hosts.len() && (#[trigger] hosts[i])@ == host
}

/// Among distinct keys a key is tracked at one position only.
pub proof fn lemma_position(cs: Seq<Container>, key: (Seq<char>, Seq<char>), i: int)
    requires
        distinct_keys(cs),
        0 <= i < cs.len(),
        cs[i].key_view() == key,
    ensures
        holds_key(cs, key),
        position(cs, key) == i,
{
}

impl AppState {
    /// The filter text.
    pub open spec fn search_text(self) -> Seq<char> {
        self.search_input.value@
    }

    /// The shown list holds exactly the tracked containers that pass the
    /// filter, each once, and the key list names them.
    pub open spec fn lists_shown(self) -> bool {
        &&& is_visible_selection(
            self.order@,
            self.containers@,
            self.show_all_containers,
            host_view(self.host_filter),
            self.search_text(),
        )
        &&& keys_follow(self.sorted_container_keys@, self.order@, self.containers@)
    }

    /// The shown list is the result of the filter and sort pipeline on the
    /// tracked containers.
    pub open spec fn lists_sorted(self) -> bool {
        &&& is_visible_order(
            self.order@,
            self.containers@,
            self.show_all_containers,
            host_view(self.host_filter),
            self.search_text(),
            self.sort_state,
        )
        &&& keys_follow(self.sorted_container_keys@, self.order@, self.containers@)
    }

    /// A row is selected exactly when the shown list has rows, and the
    /// selected row is one of them.
    pub open spec fn selection_ok(self) -> bool {
        &&& self.selected is None <==> self.order@.len() == 0
        &&& self.selected matches Some(s) ==> s < self.order@.len()
    }

    /// The log view and the log go together, and a live tail runs only for
    /// a log that is viewed.
    pub open spec fn log_ok(self) -> bool {
        &&& self.view_state is LogView <==> self.log is Some
        &&& self.view_state matches ViewState::LogView(k) ==> self.log->0.key@ == k@
        &&& self.log_stream_active ==> self.log is Some
    }

    /// The part of the invariant that speaks of the containers and their
    /// list: each key is tracked once, the shown list holds what passes
    /// the filter, and the selection lies in it.
    pub open spec fn wf_lists(self) -> bool {
        &&& distinct_keys(self.containers@)
        &&& self.lists_shown()
        &&& self.selection_ok()
        &&& self.search_input.wf()
    }

    /// The invariant of the state: what every event finds and leaves.
    pub open spec fn wf(self) -> bool {
        &&& self.wf_lists()
        &&& self.log_ok()
    }

    /// The state of a dashboard that tracks nothing yet: the container
    /// list, sorted by uptime, running containers only.
    pub fn new(connected_hosts: Vec<HostId>, is_ssh_session: bool) -> (r: AppState)
        ensures
            r.wf(),
            r.lists_sorted(),
            r.containers@.len() == 0,
            r.order@.len() == 0,
            r.sorted_container_keys@.len() == 0,
            !r.should_quit,
            r.selected is None,
            r.view_state is ContainerList,
            r.log is None,
            !r.log_stream_active,
            r.last_viewport_height == 0,
            r.connected_hosts == connected_hosts,
            r.is_ssh_session == is_ssh_session,
            !r.show_help,
            r.sort_state == SortState::spec_new(SortField::Uptime),
            !r.show_all_containers,
            r.host_filter is None,
            r.action_selected is None,
            r.search_text().len() == 0,
            r.connection_errors@.len() == 0,
            r.clock == 0,
    {
        AppState {
            containers: Vec::new(),
            order: Vec::new(),
            sorted_container_keys: Vec::new(),
            should_quit: false,
            selected: None,
            view_state: ViewState::ContainerList,
            log: None,
            log_stream_active: false,
            last_viewport_height: 0,
            connected_hosts,
            is_ssh_session,
            show_help: false,
            sort_state: SortState::new(SortField::Uptime),
            show_all_containers: false,
            host_filter: None,
            action_selected: None,
            search_input: SearchInput::new(),
            connection_errors: Vec::new(),
            clock: 0,
        }
    }

    /// The position at which the container with the given key is tracked.
    pub fn find(&self, key: &ContainerKey) -> (r: Option<usize>)
        requires
            distinct_keys(self.containers@),
        ensures
            r is Some == holds_key(self.containers@, key@),
            r matches Some(i) ==> i == position(self.containers@, key@) && i
                < self.containers@.len() && self.containers@[i as int].key_view() == key@,
    {
        let mut i: usize = 0;
        while i < self.containers.len()
            invariant
                i <= self.containers@.len(),
                distinct_keys(self.containers@),
                forall|k: int| 0 <= k < i ==> (#[trigger] self.containers@[k]).key_view() != key@,
            decreases self.containers.len() - i,
        {
            if self.containers[i].has_key(key) {
                proof {
                    lemma_position(self.containers@, key@, i as int);
                }
                return Some(i);
            }
            i = i + 1;
        }
        None
    }

    /// Whether the host is connected.
    pub fn is_connected(&self, host: &str) -> (r: bool)
        ensures
            r == connected(self.connected_hosts@, host@),
    {
        let mut i: usize = 0;
        while i < self.connected_hosts.len()
            invariant
                i <= self.connected_hosts@.len(),
                forall|k: int| 0 <= k < i ==> (#[trigger] self.connected_hosts@[k])@ != host@,
            decreases self.connected_hosts.len() - i,
        {
            if crate::text::same_text(self.connected_hosts[i].as_str(), host) {
                return true;
            }
            i = i + 1;
        }
        false
    }

    /// Runs the filter and sort pipeline and replaces the shown list by
    /// its result.
    pub fn sort_containers(&mut self)
        ensures
            final(self).lists_sorted(),
            final(self).lists_shown(),
            *final(self) == (AppState {
                order: final(self).order,
                sorted_container_keys: final(self).sorted_container_keys,
                ..*old(self)
            }),
    {
        let order = visible_order(
            &self.containers,
            self.show_all_containers,
            &self.host_filter,
            self.search_input.value.as_str(),
            self.sort_state,
        );
        let keys = keys_in_order(&self.containers, &order);
        proof {
            lemma_visible_order_selects(
                order@,
                self.containers@,
                self.show_all_containers,
                host_view(self.host_filter),
                self.search_text(),
                self.sort_state,
            );
        }
        self.order = order;
        self.sorted_container_keys = keys;
    }

    /// Fits the selection to the shown list.
    pub fn adjust_selection(&mut self)
        ensures
            final(self).selected == adjusted(old(self).selected, old(self).order@.len()),
            final(self).selection_ok(),
            *final(self) == (AppState { selected: final(self).selected, ..*old(self) }),
    {
        let count: usize = self.order.len();
        if count == 0 {
            self.selected = None;
        } else {
            match self.selected {
                Some(s) => {
                    if s >= count {
                        self.selected = Some(count - 1);
                    }
                },
                None => {
                    self.selected = Some(0);
                },
            }
        }
    }

    /// Runs the pipeline and fits the selection to its result: what every
    /// change to the containers or to the filter and sort settings ends
    /// with.
    pub fn refresh(&mut self)
        ensures
            final(self).lists_sorted(),
            final(self).lists_shown(),
            final(self).selection_ok(),
            final(self).selected == adjusted(old(self).selected, final(self).order@.len()),
            *final(self) == (AppState {
                order: final(self).order,
                sorted_container_keys: final(self).sorted_container_keys,
                selected: final(self).selected,
                ..*old(self)
            }),
    {
        self.sort_containers();
        self.adjust_selection();
    }

    /// The key of the selected row.
    pub fn selected_key(&self) -> (r: Option<ContainerKey>)
        requires
            self.wf(),
        ensures
            match self.selected {
                Some(s) => r == Some(self.sorted_container_keys@[s as int]),
                None => r is None,
            },
    {
        match self.selected {
            Some(s) => Some(self.sorted_container_keys[s].clone()),
            None => None,
        }
    }
}

} // verus!
