//! Events of the log view: opening and leaving it, scrolling, new lines and
//! pages of history.

use crate::app_state::{connected, holds_key, position, AppState, Effect, Outcome};
use crate::log_state::{LogState, LOG_BATCH_SIZE};
use crate::pagination::OlderLogsRequest;
use crate::time::Timestamp;
use crate::types::{Container, ContainerKey, LogEntry, ViewState};
use vstd::prelude::*;

verus! {

/// When the container with the given key was created, if it is tracked and
/// the time is known.
pub open spec fn created_of(cs: Seq<Container>, key: (Seq<char>, Seq<char>)) -> Option<Timestamp> {
    if holds_key(cs, key) {
        cs[position(cs, key)].created
    } else {
        None
    }
}

/// The request for older lines that goes out for a log, if one may.
pub open spec fn older_request(cs: Seq<Container>, log: LogState) -> Option<OlderLogsRequest> {
    if log.may_fetch_older() {
        Some(
            OlderLogsRequest {
                key: log.key,
                before: log.oldest->0,
                newest: log.newest->0,
                container_created: created_of(cs, log.key@),
                batch_size: LOG_BATCH_SIZE,
            },
        )
    } else {
        None
    }
}

/// The work that a request for older lines asks for.
pub open spec fn fetch_effect(request: Option<OlderLogsRequest>) -> Option<Effect> {
    match request {
        Some(r) => Some(Effect::FetchOlderLogs(r)),
        None => None,
    }
}

/// What a scroll leaves behind: the log is `scrolled`; where the scroll
/// asks for older lines and a request may go out, the guard on fetching
/// is raised and the request goes out.
pub open spec fn scroll_post(
    pre: AppState,
    scrolled: LogState,
    redraw: bool,
    ask: bool,
    post: AppState,
    out: Outcome,
) -> bool {
    if ask {
        &&& post == (AppState { log: Some(scrolled.after_begin_fetch()), ..pre })
        &&& out == (Outcome {
            redraw,
            effect: fetch_effect(older_request(pre.containers@, scrolled)),
        })
    } else {
        &&& post == (AppState { log: Some(scrolled), ..pre })
        &&& out == (Outcome { redraw, effect: None })
    }
}

/// Nothing changed and nothing is asked for.
pub open spec fn untouched(pre: AppState, post: AppState, out: Outcome) -> bool {
    &&& post == pre
    &&& out == (Outcome { redraw: false, effect: None })
}

impl AppState {
    /// What opening the log of the selected container leaves behind: in
    /// the container list, with a row selected, the log view of that
    /// container with an empty log; and the request for its live tail
    /// exactly where the container's host is connected.
    pub open spec fn show_log_view_post(pre: AppState, post: AppState, out: Outcome) -> bool {
        if pre.view_state is ContainerList && pre.selected is Some {
            let key = pre.sorted_container_keys@[pre.selected->0 as int];
            let live = connected(pre.connected_hosts@, key.host_id@);
            &&& post.view_state == ViewState::LogView(key)
            &&& post.log is Some
            &&& post.log->0.is_fresh(key)
            &&& post == (AppState {
                view_state: post.view_state,
                log: post.log,
                log_stream_active: live,
                ..pre
            })
            &&& out == (Outcome {
                redraw: true,
                effect: if live {
                    Some(Effect::StartLogStream(key))
                } else {
                    None
                },
            })
        } else {
            untouched(pre, post, out)
        }
    }

    /// What the Enter key leaves behind.
    pub open spec fn enter_pressed_post(pre: AppState, post: AppState, out: Outcome) -> bool {
        if pre.view_state is ContainerList {
            Self::show_log_view_post(pre, post, out)
        } else if pre.view_state is SearchMode {
            &&& post == (AppState { view_state: ViewState::ContainerList, ..pre })
            &&& out == (Outcome { redraw: true, effect: None })
        } else {
            untouched(pre, post, out)
        }
    }

    /// What leaving the log view leaves behind.
    pub open spec fn exit_log_view_post(pre: AppState, post: AppState, out: Outcome) -> bool {
        if pre.show_help {
            &&& post == (AppState { show_help: false, ..pre })
            &&& out == (Outcome { redraw: true, effect: None })
        } else if pre.view_state is LogView {
            &&& post == (AppState {
                view_state: ViewState::ContainerList,
                log: None,
                log_stream_active: false,
                ..pre
            })
            &&& out == (Outcome {
                redraw: true,
                effect: if pre.log_stream_active {
                    Some(Effect::StopLogStream)
                } else {
                    None
                },
            })
        } else {
            untouched(pre, post, out)
        }
    }

    /// What scrolling one line up leaves behind.
    pub open spec fn scroll_up_post(pre: AppState, post: AppState, out: Outcome) -> bool {
        match pre.log {
            Some(l) => scroll_post(
                pre,
                l.after_scroll_up(),
                l.scroll_offset > 0,
                l.after_scroll_up().near_top(),
                post,
                out,
            ),
            None => untouched(pre, post, out),
        }
    }

    /// What scrolling one line down leaves behind.
    pub open spec fn scroll_down_post(pre: AppState, post: AppState, out: Outcome) -> bool {
        match pre.log {
            Some(l) => scroll_post(pre, l.after_scroll_down(), true, false, post, out),
            None => untouched(pre, post, out),
        }
    }

    /// What scrolling to the top leaves behind.
    pub open spec fn scroll_to_top_post(pre: AppState, post: AppState, out: Outcome) -> bool {
        match pre.log {
            Some(l) => scroll_post(pre, l.after_scroll_to_top(), true, true, post, out),
            None => untouched(pre, post, out),
        }
    }

    /// What scrolling to the bottom leaves behind.
    pub open spec fn scroll_to_bottom_post(pre: AppState, post: AppState, out: Outcome) -> bool {
        match pre.log {
            Some(l) => scroll_post(pre, l.after_scroll_to_bottom(), true, false, post, out),
            None => untouched(pre, post, out),
        }
    }

    /// What scrolling half a page up leaves behind.
    pub open spec fn scroll_page_up_post(pre: AppState, post: AppState, out: Outcome) -> bool {
        match pre.log {
            Some(l) => scroll_post(
                pre,
                l.after_page_up(pre.last_viewport_height),
                true,
                l.after_page_up(pre.last_viewport_height).near_top(),
                post,
                out,
            ),
            None => untouched(pre, post, out),
        }
    }

    /// What scrolling half a page down leaves behind.
    pub open spec fn scroll_page_down_post(pre: AppState, post: AppState, out: Outcome) -> bool {
        match pre.log {
            Some(l) => scroll_post(
                pre,
                l.after_page_down(pre.last_viewport_height),
                true,
                false,
                post,
                out,
            ),
            None => untouched(pre, post, out),
        }
    }

    /// What an explicit request for older lines leaves behind.
    pub open spec fn request_older_logs_post(pre: AppState, post: AppState, out: Outcome) -> bool {
        match pre.log {
            Some(l) => scroll_post(pre, l, false, true, post, out),
            None => untouched(pre, post, out),
        }
    }

    /// What a line from the live tail leaves behind.
    pub open spec fn log_line_post(
        pre: AppState,
        key: ContainerKey,
        entry: LogEntry,
        post: AppState,
        out: Outcome,
    ) -> bool {
        if pre.log is Some && pre.log->0.key@ == key@ {
            &&& post.log is Some
            &&& pre.log->0.line_pushed(entry, post.log->0)
            &&& post == (AppState { log: post.log, ..pre })
            &&& out == (Outcome { redraw: true, effect: None })
        } else {
            untouched(pre, post, out)
        }
    }

    /// What a batch of older lines leaves behind.
    pub open spec fn log_batch_post(
        pre: AppState,
        key: ContainerKey,
        batch: Seq<LogEntry>,
        has_more_history: bool,
        post: AppState,
        out: Outcome,
    ) -> bool {
        if pre.log is Some && pre.log->0.key@ == key@ {
            &&& post.log is Some
            &&& pre.log->0.batch_prepended(batch, has_more_history, post.log->0)
            &&& post == (AppState { log: post.log, ..pre })
            &&& out == (Outcome { redraw: true, effect: None })
        } else {
            untouched(pre, post, out)
        }
    }

    /// Puts the scrolled log back and, where the scroll asks for it, lets
    /// a request for older lines go out.
    fn finish_scroll(&mut self, scrolled: LogState, redraw: bool, ask: bool) -> (out: Outcome)
        requires
            old(self).wf_lists(),
            old(self).view_state is LogView,
            old(self).view_state matches ViewState::LogView(k) ==> scrolled.key@ == k@,
        ensures
            final(self).wf(),
            scroll_post(
                AppState { log: Some(scrolled), ..*old(self) },
                scrolled,
                redraw,
                ask,
                *final(self),
                out,
            ),
    {
        let mut log = scrolled;
        if !ask {
            self.log = Some(log);
            return Outcome { redraw, effect: None };
        }
        let effect = match log.begin_fetch_older() {
            Some((before, newest)) => {
                let key = log.key.clone();
                let container_created = match self.find(&key) {
                    Some(i) => self.containers[i].created,
                    None => None,
                };
                Some(
                    Effect::FetchOlderLogs(
                        OlderLogsRequest {
                            key,
                            before,
                            newest,
                            container_created,
                            batch_size: LOG_BATCH_SIZE,
                        },
                    ),
                )
            },
            None => None,
        };
        self.log = Some(log);
        Outcome { redraw, effect }
    }

    /// Opens the log of the selected container. Its live tail is asked
    /// for where the container's host is connected; for a host that is
    /// not, the view opens with no tail. Outside the container list, and
    /// without a selection, nothing happens.
    pub fn handle_show_log_view(&mut self) -> (out: Outcome)
        requires
            old(self).wf(),
        ensures
            final(self).wf(),
            Self::show_log_view_post(*old(self), *final(self), out),
    {
        if !matches!(self.view_state, ViewState::ContainerList) {
            return Outcome::ignored();
        }
        match self.selected_key() {
            Some(key) => {
                let live = self.is_connected(key.host_id.as_str());
                self.view_state = ViewState::LogView(key.clone());
                self.log = Some(LogState::new(key.clone()));
                self.log_stream_active = live;
                let effect = if live {
                    Some(Effect::StartLogStream(key))
                } else {
                    None
                };
                Outcome { redraw: true, effect }
            },
            None => Outcome::ignored(),
        }
    }

    /// The Enter key. In the container list it opens the log of the
    /// selected container; while the filter text is edited it ends the
    /// editing and keeps the filter.
    pub fn handle_enter_pressed(&mut self) -> (out: Outcome)
        requires
            old(self).wf(),
        ensures
            final(self).wf(),
            Self::enter_pressed_post(*old(self), *final(self), out),
    {
        match &self.view_state {
            ViewState::ContainerList => self.handle_show_log_view(),
            ViewState::SearchMode => {
                self.view_state = ViewState::ContainerList;
                Outcome::drawn()
            },
            _ => Outcome::ignored(),
        }
    }

    /// The key that leaves the log view. An open help is closed first.
    /// Leaving the log view drops the log and cancels its live tail, if
    /// one was asked for.
    pub fn handle_exit_log_view(&mut self) -> (out: Outcome)
        requires
            old(self).wf(),
        ensures
            final(self).wf(),
            Self::exit_log_view_post(*old(self), *final(self), out),
    {
        if self.show_help {
            self.show_help = false;
            return Outcome::drawn();
        }
        if !matches!(self.view_state, ViewState::LogView(_)) {
            return Outcome::ignored();
        }
        let effect = if self.log_stream_active {
            Some(Effect::StopLogStream)
        } else {
            None
        };
        self.log = None;
        self.log_stream_active = false;
        self.view_state = ViewState::ContainerList;
        Outcome { redraw: true, effect }
    }

    /// Scrolls the log one line up. Close to the top of the loaded lines
    /// it asks for older ones.
    pub fn handle_scroll_up(&mut self) -> (out: Outcome)
        requires
            old(self).wf(),
        ensures
            final(self).wf(),
            Self::scroll_up_post(*old(self), *final(self), out),
    {
        match self.log.take() {
            Some(l) => {
                let mut log = l;
                let moved = log.scroll_up();
                let ask = log.scroll_offset < crate::log_state::PAGINATION_THRESHOLD;
                self.finish_scroll(log, moved, ask)
            },
            None => Outcome::ignored(),
        }
    }

    /// Scrolls the log one line down.
    pub fn handle_scroll_down(&mut self) -> (out: Outcome)
        requires
            old(self).wf(),
        ensures
            final(self).wf(),
            Self::scroll_down_post(*old(self), *final(self), out),
    {
        match self.log.take() {
            Some(l) => {
                let mut log = l;
                log.scroll_down();
                self.finish_scroll(log, true, false)
            },
            None => Outcome::ignored(),
        }
    }

    /// Scrolls to the oldest loaded line and asks for older ones.
    pub fn handle_scroll_to_top(&mut self) -> (out: Outcome)
        requires
            old(self).wf(),
        ensures
            final(self).wf(),
            Self::scroll_to_top_post(*old(self), *final(self), out),
    {
        match self.log.take() {
            Some(l) => {
                let mut log = l;
                log.scroll_to_top();
                self.finish_scroll(log, true, true)
            },
            None => Outcome::ignored(),
        }
    }

    /// Follows the newest line again.
    pub fn handle_scroll_to_bottom(&mut self) -> (out: Outcome)
        requires
            old(self).wf(),
        ensures
            final(self).wf(),
            Self::scroll_to_bottom_post(*old(self), *final(self), out),
    {
        match self.log.take() {
            Some(l) => {
                let mut log = l;
                log.scroll_to_bottom();
                self.finish_scroll(log, true, false)
            },
            None => Outcome::ignored(),
        }
    }

    /// Scrolls half a page up. Close to the top of the loaded lines it
    /// asks for older ones.
    pub fn handle_scroll_page_up(&mut self) -> (out: Outcome)
        requires
            old(self).wf(),
        ensures
            final(self).wf(),
            Self::scroll_page_up_post(*old(self), *final(self), out),
    {
        match self.log.take() {
            Some(l) => {
                let mut log = l;
                log.scroll_page_up(self.last_viewport_height);
                let ask = log.scroll_offset < crate::log_state::PAGINATION_THRESHOLD;
                self.finish_scroll(log, true, ask)
            },
            None => Outcome::ignored(),
        }
    }

    /// Scrolls half a page down.
    pub fn handle_scroll_page_down(&mut self) -> (out: Outcome)
        requires
            old(self).wf(),
        ensures
            final(self).wf(),
            Self::scroll_page_down_post(*old(self), *final(self), out),
    {
        match self.log.take() {
            Some(l) => {
                let mut log = l;
                log.scroll_page_down(self.last_viewport_height);
                self.finish_scroll(log, true, false)
            },
            None => Outcome::ignored(),
        }
    }

    /// Asks for the lines before the loaded ones, unless a request is in
    /// flight or the history has ended.
    pub fn handle_request_older_logs(&mut self) -> (out: Outcome)
        requires
            old(self).wf(),
        ensures
            final(self).wf(),
            Self::request_older_logs_post(*old(self), *final(self), out),
    {
        match self.log.take() {
            Some(l) => self.finish_scroll(l, false, true),
            None => Outcome::ignored(),
        }
    }

    /// A line from the live tail. It is kept if it belongs to the log in
    /// view, and dropped if not.
    pub fn handle_log_line(&mut self, key: ContainerKey, log_entry: LogEntry) -> (out: Outcome)
        requires
            old(self).wf(),
        ensures
            final(self).wf(),
            Self::log_line_post(*old(self), key, log_entry, *final(self), out),
    {
        match self.log.take() {
            Some(l) => {
                let mut log = l;
                if log.key.same_as(&key) {
                    log.push_line(log_entry);
                    self.log = Some(log);
                    Outcome::drawn()
                } else {
                    self.log = Some(log);
                    Outcome::ignored()
                }
            },
            None => Outcome::ignored(),
        }
    }

    /// A batch of older lines. It is put in front of the loaded lines if
    /// it belongs to the log in view, and dropped if not.
    pub fn handle_log_batch(&mut self, key: ContainerKey, log_entries: Vec<LogEntry>, has_more_history: bool) -> (out:
        Outcome)
        requires
            old(self).wf(),
        ensures
            final(self).wf(),
            Self::log_batch_post(
                *old(self),
                key,
                log_entries@,
                has_more_history,
                *final(self),
                out,
            ),
    {
        match self.log.take() {
            Some(l) => {
                let mut log = l;
                if log.key.same_as(&key) {
                    log.prepend_batch(log_entries, has_more_history);
                    self.log = Some(log);
                    Outcome::drawn()
                } else {
                    self.log = Some(log);
                    Outcome::ignored()
                }
            },
            None => Outcome::ignored(),
        }
    }
}

} // verus!
