//! The one place where events meet the state.

use crate::app_state::{AppState, Effect, Outcome};
use crate::log_view::untouched;
use crate::types::AppEvent;
use vstd::prelude::*;

verus! {

/// Live tails that run for a state: one where one was asked for and not
/// cancelled since, else none.
pub open spec fn live_tails(state: AppState) -> int {
    if state.log_stream_active {
        1
    } else {
        0
    }
}

/// Live tails that run once the surroundings have done the work asked of
/// them: a start adds one, a stop takes one away.
pub open spec fn tails_after(running: int, effect: Option<Effect>) -> int {
    match effect {
        Some(Effect::StartLogStream(_)) => running + 1,
        Some(Effect::StopLogStream) => running - 1,
        _ => running,
    }
}

/// Live tails that run after the work of a whole series of outcomes was
/// done, one outcome after the other.
pub open spec fn tails_after_all(running: int, outs: Seq<Outcome>) -> int
    decreases outs.len(),
{
    if outs.len() == 0 {
        running
    } else {
        tails_after(tails_after_all(running, outs.drop_last()), outs.last().effect)
    }
}

/// `states` is a run of the state machine on `events`: it starts
/// well-formed, and each event leads from one state to the next with the
/// outcome at its place in `outs`.
pub open spec fn is_run(states: Seq<AppState>, events: Seq<AppEvent>, outs: Seq<Outcome>) -> bool {
    &&& states.len() == events.len() + 1
    &&& outs.len() == events.len()
    &&& states[0].wf()
    &&& forall|i: int|
        0 <= i < events.len() ==> AppState::event_post(
            #[trigger] states[i],
            events[i],
            states[i + 1],
            outs[i],
        )
}

impl AppState {
    /// What an event leaves behind: the state after it, and what is asked
    /// of the surroundings.
    pub open spec fn event_post(pre: AppState, event: AppEvent, post: AppState, out: Outcome) -> bool {
        match event {
            AppEvent::InitialContainerList(host, list) => Self::initial_container_list_post(
                pre,
                host,
                list@,
                post,
                out,
            ),
            AppEvent::ContainerCreated(c) => Self::container_created_post(pre, c, post, out),
            AppEvent::ContainerDestroyed(key) => Self::container_destroyed_post(
                pre,
                key,
                post,
                out,
            ),
            AppEvent::ContainerStateChanged(key, state) => Self::container_state_changed_post(
                pre,
                key,
                state,
                post,
                out,
            ),
            AppEvent::ContainerStat(key, stats) => Self::container_stat_post(
                pre,
                key,
                stats,
                post,
                out,
            ),
            AppEvent::ContainerHealthChanged(key, health) => Self::container_health_changed_post(
                pre,
                key,
                health,
                post,
                out,
            ),
            AppEvent::Quit => Self::quit_post(pre, post, out),
            AppEvent::Resize => post == pre && out == (Outcome { redraw: true, effect: None }),
            AppEvent::SelectPrevious => Self::select_previous_post(pre, post, out),
            AppEvent::SelectNext => Self::select_next_post(pre, post, out),
            AppEvent::EnterPressed => Self::enter_pressed_post(pre, post, out),
            AppEvent::ExitLogView => Self::exit_log_view_post(pre, post, out),
            AppEvent::ScrollUp => Self::scroll_up_post(pre, post, out),
            AppEvent::ScrollDown => Self::scroll_down_post(pre, post, out),
            AppEvent::ScrollToTop => Self::scroll_to_top_post(pre, post, out),
            AppEvent::ScrollToBottom => Self::scroll_to_bottom_post(pre, post, out),
            AppEvent::ScrollPageUp => Self::scroll_page_up_post(pre, post, out),
            AppEvent::ScrollPageDown => Self::scroll_page_down_post(pre, post, out),
            AppEvent::LogLine(key, entry) => Self::log_line_post(pre, key, entry, post, out),
            AppEvent::LogBatchPrepend(key, entries, more) => Self::log_batch_post(
                pre,
                key,
                entries@,
                more,
                post,
                out,
            ),
            AppEvent::RequestOlderLogs => Self::request_older_logs_post(pre, post, out),
            AppEvent::OpenDozzle => Self::open_dozzle_post(pre, post, out),
            AppEvent::ToggleHelp => Self::toggle_help_post(pre, post, out),
            AppEvent::CycleSortField => Self::cycle_sort_field_post(pre, post, out),
            AppEvent::SetSortField(field) => Self::set_sort_field_post(pre, field, post, out),
            AppEvent::ToggleShowAll => Self::toggle_show_all_post(pre, post, out),
            AppEvent::SelectHost(host) => Self::select_host_post(pre, host, post, out),
            AppEvent::ShowActionMenu => Self::show_action_menu_post(pre, post, out),
            AppEvent::CancelActionMenu => Self::cancel_action_menu_post(pre, post, out),
            AppEvent::SelectActionUp => Self::select_action_up_post(pre, post, out),
            AppEvent::SelectActionDown => Self::select_action_down_post(pre, post, out),
            AppEvent::ExecuteAction => Self::execute_action_post(pre, post, out),
            AppEvent::ActionInProgress(_, _) => untouched(pre, post, out),
            AppEvent::ActionSuccess(_, _) => untouched(pre, post, out),
            AppEvent::ActionError(_, _, _) => untouched(pre, post, out),
            AppEvent::EnterSearchMode => Self::enter_search_mode_post(pre, post, out),
            AppEvent::ExitSearchMode => Self::exit_search_mode_post(pre, post, out),
            AppEvent::SearchKeyEvent(key) => Self::search_key_post(pre, key, post, out),
            AppEvent::ConnectionError(host, message) => Self::connection_error_post(
                pre,
                host,
                message,
                post,
                out,
            ),
            AppEvent::HostConnected(host) => Self::host_connected_post(pre, host, post, out),
        }
    }

    /// Applies one event to the state and says whether the change must be
    /// drawn at once and what work it asks for. No event does any work
    /// itself, and none fails: an event that does not apply to the view on
    /// screen, or speaks of a container that is tracked no longer, is
    /// ignored.
    pub fn handle_event(&mut self, event: AppEvent) -> (out: Outcome)
        requires
            old(self).wf(),
        ensures
            final(self).wf(),
            Self::event_post(*old(self), event, *final(self), out),
    {
        match event {
            AppEvent::InitialContainerList(host_id, container_list) => {
                self.handle_initial_container_list(host_id, container_list)
            },
            AppEvent::ContainerCreated(container) => self.handle_container_created(container),
            AppEvent::ContainerDestroyed(key) => self.handle_container_destroyed(key),
            AppEvent::ContainerStateChanged(key, state) => {
                self.handle_container_state_changed(key, state)
            },
            AppEvent::ContainerStat(key, stats) => self.handle_container_stat(key, stats),
            AppEvent::ContainerHealthChanged(key, health) => {
                self.handle_container_health_changed(key, health)
            },
            AppEvent::Quit => self.handle_quit(),
            AppEvent::Resize => Outcome::drawn(),
            AppEvent::SelectPrevious => self.handle_select_previous(),
            AppEvent::SelectNext => self.handle_select_next(),
            AppEvent::EnterPressed => self.handle_enter_pressed(),
            AppEvent::ExitLogView => self.handle_exit_log_view(),
            AppEvent::ScrollUp => self.handle_scroll_up(),
            AppEvent::ScrollDown => self.handle_scroll_down(),
            AppEvent::ScrollToTop => self.handle_scroll_to_top(),
            AppEvent::ScrollToBottom => self.handle_scroll_to_bottom(),
            AppEvent::ScrollPageUp => self.handle_scroll_page_up(),
            AppEvent::ScrollPageDown => self.handle_scroll_page_down(),
            AppEvent::LogLine(key, entry) => self.handle_log_line(key, entry),
            AppEvent::LogBatchPrepend(key, entries, more) => self.handle_log_batch(
                key,
                entries,
                more,
            ),
            AppEvent::RequestOlderLogs => self.handle_request_older_logs(),
            AppEvent::OpenDozzle => self.handle_open_dozzle(),
            AppEvent::ToggleHelp => self.handle_toggle_help(),
            AppEvent::CycleSortField => self.handle_cycle_sort_field(),
            AppEvent::SetSortField(field) => self.handle_set_sort_field(field),
            AppEvent::ToggleShowAll => self.handle_toggle_show_all(),
            AppEvent::SelectHost(host) => self.handle_select_host(host),
            AppEvent::ShowActionMenu => self.handle_show_action_menu(),
            AppEvent::CancelActionMenu => self.handle_cancel_action_menu(),
            AppEvent::SelectActionUp => self.handle_select_action_up(),
            AppEvent::SelectActionDown => self.handle_select_action_down(),
            AppEvent::ExecuteAction => self.handle_execute_action(),
            AppEvent::ActionInProgress(_, _) => Outcome::ignored(),
            AppEvent::ActionSuccess(_, _) => Outcome::ignored(),
            AppEvent::ActionError(_, _, _) => Outcome::ignored(),
            AppEvent::EnterSearchMode => self.handle_enter_search_mode(),
            AppEvent::ExitSearchMode => self.handle_exit_search_mode(),
            AppEvent::SearchKeyEvent(key) => self.handle_search_key_event(key),
            AppEvent::ConnectionError(host_id, error) => self.handle_connection_error(
                host_id,
                error,
            ),
            AppEvent::HostConnected(host_id) => self.handle_host_connected(host_id),
        }
    }
}

} // verus!
