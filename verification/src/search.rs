//! Events of the filter text, and events about the hosts.

use crate::app_state::{connected, AppState, ConnectionNotice, Outcome, NOTICE_LIFETIME_SECS};
use crate::container_events::refreshed;
use crate::log_view::untouched;
use crate::search_input::{edited, is_editing_key};
use crate::text::same_text;
use crate::types::{HostId, SearchKey, ViewState};
use vstd::prelude::*;

verus! {

impl Clone for ConnectionNotice {
    fn clone(&self) -> (r: Self)
        ensures
            r == *self,
    {
        ConnectionNotice {
            host_id: self.host_id.clone(),
            message: self.message.clone(),
            at: self.at,
        }
    }
}

/// Whether a notice stays on display when an error of `host` comes in at
/// the time `clock`: it speaks of another host and is younger than ten
/// seconds.
pub open spec fn notice_stays(n: ConnectionNotice, host: Seq<char>, clock: u64) -> bool {
    n.host_id@ != host && clock - n.at < NOTICE_LIFETIME_SECS
}

/// The notices of `notices` that stay on display, in their order.
pub open spec fn staying(notices: Seq<ConnectionNotice>, host: Seq<char>, clock: u64) -> Seq<
    ConnectionNotice,
>
    decreases notices.len(),
{
    if notices.len() == 0 {
        Seq::empty()
    } else if notice_stays(notices.last(), host, clock) {
        staying(notices.drop_last(), host, clock).push(notices.last())
    } else {
        staying(notices.drop_last(), host, clock)
    }
}

impl AppState {
    /// What beginning to edit the filter text leaves behind.
    pub open spec fn enter_search_mode_post(pre: AppState, post: AppState, out: Outcome) -> bool {
        if pre.view_state is ContainerList {
            &&& post.search_text().len() == 0
            &&& post.search_input.cursor == 0
            &&& refreshed(
                AppState {
                    view_state: ViewState::SearchMode,
                    search_input: post.search_input,
                    ..pre
                },
                post,
            )
            &&& out == (Outcome { redraw: true, effect: None })
        } else {
            untouched(pre, post, out)
        }
    }

    /// What ending the editing and clearing the filter text leaves behind.
    pub open spec fn exit_search_mode_post(pre: AppState, post: AppState, out: Outcome) -> bool {
        if pre.view_state is SearchMode {
            &&& post.search_text().len() == 0
            &&& post.search_input.cursor == 0
            &&& refreshed(
                AppState {
                    view_state: ViewState::ContainerList,
                    search_input: post.search_input,
                    ..pre
                },
                post,
            )
            &&& out == (Outcome { redraw: true, effect: None })
        } else {
            untouched(pre, post, out)
        }
    }

    /// What a key for the filter text leaves behind.
    pub open spec fn search_key_post(
        pre: AppState,
        key: SearchKey,
        post: AppState,
        out: Outcome,
    ) -> bool {
        if !(pre.view_state is SearchMode) {
            untouched(pre, post, out)
        } else if key is Esc {
            Self::exit_search_mode_post(pre, post, out)
        } else if is_editing_key(key) {
            &&& (post.search_text(), post.search_input.cursor as int) == edited(
                pre.search_text(),
                pre.search_input.cursor as int,
                key,
            )
            &&& refreshed(AppState { search_input: post.search_input, ..pre }, post)
            &&& out == (Outcome { redraw: true, effect: None })
        } else {
            untouched(pre, post, out)
        }
    }

    /// What a connection error leaves behind.
    pub open spec fn connection_error_post(
        pre: AppState,
        host: HostId,
        message: String,
        post: AppState,
        out: Outcome,
    ) -> bool {
        &&& post.connection_errors@ == staying(pre.connection_errors@, host@, pre.clock).push(
            ConnectionNotice { host_id: host, message, at: pre.clock },
        )
        &&& post == (AppState { connection_errors: post.connection_errors, ..pre })
        &&& out == (Outcome { redraw: true, effect: None })
    }

    /// What the connection of a host leaves behind.
    pub open spec fn host_connected_post(
        pre: AppState,
        host: HostId,
        post: AppState,
        out: Outcome,
    ) -> bool {
        &&& post.connected_hosts@ == if connected(pre.connected_hosts@, host@) {
            pre.connected_hosts@
        } else {
            pre.connected_hosts@.push(host)
        }
        &&& post == (AppState { connected_hosts: post.connected_hosts, ..pre })
        &&& out == (Outcome { redraw: false, effect: None })
    }

    /// Begins editing the filter text, which starts empty.
    pub fn handle_enter_search_mode(&mut self) -> (out: Outcome)
        requires
            old(self).wf(),
        ensures
            final(self).wf(),
            Self::enter_search_mode_post(*old(self), *final(self), out),
    {
        if !matches!(self.view_state, ViewState::ContainerList) {
            return Outcome::ignored();
        }
        self.view_state = ViewState::SearchMode;
        self.search_input.reset();
        self.refresh();
        Outcome::drawn()
    }

    /// Ends the editing and clears the filter text, so that every
    /// container passes again.
    pub fn handle_exit_search_mode(&mut self) -> (out: Outcome)
        requires
            old(self).wf(),
        ensures
            final(self).wf(),
            Self::exit_search_mode_post(*old(self), *final(self), out),
    {
        if !matches!(self.view_state, ViewState::SearchMode) {
            return Outcome::ignored();
        }
        self.view_state = ViewState::ContainerList;
        self.search_input.reset();
        self.refresh();
        Outcome::drawn()
    }

    /// A key for the filter text. Escape ends the editing and clears the
    /// text. A key that edits the text or moves the cursor is applied, and
    /// the list is filtered anew at once. Any other key, and any key
    /// outside the editing, is ignored.
    pub fn handle_search_key_event(&mut self, key: SearchKey) -> (out: Outcome)
        requires
            old(self).wf(),
        ensures
            final(self).wf(),
            Self::search_key_post(*old(self), key, *final(self), out),
    {
        if !matches!(self.view_state, ViewState::SearchMode) {
            return Outcome::ignored();
        }
        if matches!(key, SearchKey::Esc) {
            return self.handle_exit_search_mode();
        }
        if !self.search_input.apply_key(key) {
            return Outcome::ignored();
        }
        self.refresh();
        Outcome::drawn()
    }

    /// A host could not be reached. The error is put on display, in the
    /// place of any earlier error of that host; errors older than ten
    /// seconds leave the display.
    pub fn handle_connection_error(&mut self, host_id: HostId, error: String) -> (out: Outcome)
        requires
            old(self).wf(),
        ensures
            final(self).wf(),
            Self::connection_error_post(*old(self), host_id, error, *final(self), out),
    {
        let clock: u64 = self.clock;
        let mut kept: Vec<ConnectionNotice> = Vec::new();
        let mut i: usize = 0;
        while i < self.connection_errors.len()
            invariant
                i <= self.connection_errors@.len(),
                *self == *old(self),
                clock == self.clock,
                kept@ == staying(self.connection_errors@.take(i as int), host_id@, clock),
            decreases self.connection_errors.len() - i,
        {
            let notice = &self.connection_errors[i];
            proof {
                let next = self.connection_errors@.take(i + 1);
                assert(next.drop_last() =~= self.connection_errors@.take(i as int));
                assert(next.last() == self.connection_errors@[i as int]);
            }
            let young = notice.at > clock || clock - notice.at < NOTICE_LIFETIME_SECS;
            if young && !same_text(notice.host_id.as_str(), host_id.as_str()) {
                kept.push(notice.clone());
            }
            i = i + 1;
        }
        proof {
            assert(self.connection_errors@.take(i as int) =~= self.connection_errors@);
        }
        kept.push(ConnectionNotice { host_id, message: error, at: clock });
        self.connection_errors = kept;
        Outcome::drawn()
    }

    /// A host was reached: from now on actions on its containers can run.
    pub fn handle_host_connected(&mut self, host_id: HostId) -> (out: Outcome)
        requires
            old(self).wf(),
        ensures
            final(self).wf(),
            Self::host_connected_post(*old(self), host_id, *final(self), out),
    {
        if !self.is_connected(host_id.as_str()) {
            self.connected_hosts.push(host_id);
        }
        Outcome::ignored()
    }
}

} // verus!
