//! Events that move the selection or change how the list is filtered and
//! sorted. They are accepted in the container list only.

use crate::app_state::{AppState, Outcome};
use crate::container_events::refreshed;
use crate::types::{HostId, SortField, SortState, ViewState};
use vstd::prelude::*;

verus! {

/// The selection one row up, where there is one.
pub open spec fn row_above(selected: Option<usize>) -> Option<usize> {
    match selected {
        Some(s) => if s > 0 {
            Some((s - 1) as usize)
        } else {
            Some(s)
        },
        None => None,
    }
}

/// The selection one row down in a list of `len` rows, where there is one.
pub open spec fn row_below(selected: Option<usize>, len: nat) -> Option<usize> {
    match selected {
        Some(s) => if s + 1 < len {
            Some((s + 1) as usize)
        } else {
            Some(s)
        },
        None => None,
    }
}

/// The sort state after the given field was asked for: the other direction
/// if it is the active field, else the field in its default direction.
pub open spec fn sort_state_for(current: SortState, field: SortField) -> SortState {
    if current.field == field {
        SortState { field, direction: current.direction.spec_toggle() }
    } else {
        SortState::spec_new(field)
    }
}

/// The selection on the first row of a list of `len` rows.
pub open spec fn first_row(len: nat) -> Option<usize> {
    if len == 0 {
        None
    } else {
        Some(0)
    }
}

impl AppState {
    /// What a request to quit leaves behind.
    pub open spec fn quit_post(pre: AppState, post: AppState, out: Outcome) -> bool {
        &&& post == (AppState { should_quit: true, ..pre })
        &&& out == (Outcome { redraw: false, effect: None })
    }

    /// What moving the selection up leaves behind.
    pub open spec fn select_previous_post(pre: AppState, post: AppState, out: Outcome) -> bool {
        if pre.view_state is ContainerList {
            &&& post == (AppState { selected: row_above(pre.selected), ..pre })
            &&& out == (Outcome { redraw: true, effect: None })
        } else {
            &&& post == pre
            &&& out == (Outcome { redraw: false, effect: None })
        }
    }

    /// What moving the selection down leaves behind.
    pub open spec fn select_next_post(pre: AppState, post: AppState, out: Outcome) -> bool {
        if pre.view_state is ContainerList {
            &&& post == (AppState { selected: row_below(pre.selected, pre.order@.len()), ..pre })
            &&& out == (Outcome { redraw: true, effect: None })
        } else {
            &&& post == pre
            &&& out == (Outcome { redraw: false, effect: None })
        }
    }

    /// What toggling the help leaves behind.
    pub open spec fn toggle_help_post(pre: AppState, post: AppState, out: Outcome) -> bool {
        &&& post == (AppState { show_help: !pre.show_help, ..pre })
        &&& out == (Outcome { redraw: true, effect: None })
    }

    /// What a change of the filter and sort settings leaves behind, where
    /// `base` is the state with the new settings.
    pub open spec fn settings_post(pre: AppState, base: AppState, post: AppState, out: Outcome) -> bool {
        if pre.view_state is ContainerList {
            &&& refreshed(base, post)
            &&& out == (Outcome { redraw: true, effect: None })
        } else {
            &&& post == pre
            &&& out == (Outcome { redraw: false, effect: None })
        }
    }

    /// What cycling the sort field leaves behind.
    pub open spec fn cycle_sort_field_post(pre: AppState, post: AppState, out: Outcome) -> bool {
        Self::settings_post(
            pre,
            AppState { sort_state: SortState::spec_new(pre.sort_state.field.spec_next()), ..pre },
            post,
            out,
        )
    }

    /// What asking for a sort field leaves behind.
    pub open spec fn set_sort_field_post(
        pre: AppState,
        field: SortField,
        post: AppState,
        out: Outcome,
    ) -> bool {
        Self::settings_post(
            pre,
            AppState { sort_state: sort_state_for(pre.sort_state, field), ..pre },
            post,
            out,
        )
    }

    /// What toggling the display of stopped containers leaves behind.
    pub open spec fn toggle_show_all_post(pre: AppState, post: AppState, out: Outcome) -> bool {
        Self::settings_post(
            pre,
            AppState { show_all_containers: !pre.show_all_containers, ..pre },
            post,
            out,
        )
    }

    /// What choosing a host leaves behind.
    pub open spec fn select_host_post(
        pre: AppState,
        host: Option<HostId>,
        post: AppState,
        out: Outcome,
    ) -> bool {
        if pre.view_state is ContainerList {
            &&& post.lists_sorted()
            &&& post.selected == first_row(post.order@.len())
            &&& post == (AppState {
                host_filter: host,
                order: post.order,
                sorted_container_keys: post.sorted_container_keys,
                selected: post.selected,
                ..pre
            })
            &&& out == (Outcome { redraw: true, effect: None })
        } else {
            &&& post == pre
            &&& out == (Outcome { redraw: false, effect: None })
        }
    }

    /// The operator asked to quit: the event loop ends after this event.
    pub fn handle_quit(&mut self) -> (out: Outcome)
        requires
            old(self).wf(),
        ensures
            final(self).wf(),
            Self::quit_post(*old(self), *final(self), out),
    {
        self.should_quit = true;
        Outcome::ignored()
    }

    /// Moves the selection one row up, if there is a row above.
    pub fn handle_select_previous(&mut self) -> (out: Outcome)
        requires
            old(self).wf(),
        ensures
            final(self).wf(),
            Self::select_previous_post(*old(self), *final(self), out),
    {
        if !matches!(self.view_state, ViewState::ContainerList) {
            return Outcome::ignored();
        }
        match self.selected {
            Some(s) => {
                if s > 0 {
                    self.selected = Some(s - 1);
                }
            },
            None => {},
        }
        Outcome::drawn()
    }

    /// Moves the selection one row down, if there is a row below.
    pub fn handle_select_next(&mut self) -> (out: Outcome)
        requires
            old(self).wf(),
        ensures
            final(self).wf(),
            Self::select_next_post(*old(self), *final(self), out),
    {
        if !matches!(self.view_state, ViewState::ContainerList) {
            return Outcome::ignored();
        }
        match self.selected {
            Some(s) => {
                if s < self.order.len() - 1 {
                    self.selected = Some(s + 1);
                }
            },
            None => {},
        }
        Outcome::drawn()
    }

    /// Shows or hides the help.
    pub fn handle_toggle_help(&mut self) -> (out: Outcome)
        requires
            old(self).wf(),
        ensures
            final(self).wf(),
            Self::toggle_help_post(*old(self), *final(self), out),
    {
        self.show_help = !self.show_help;
        Outcome::drawn()
    }

    /// Sorts by the next field, in its default direction.
    pub fn handle_cycle_sort_field(&mut self) -> (out: Outcome)
        requires
            old(self).wf(),
        ensures
            final(self).wf(),
            Self::cycle_sort_field_post(*old(self), *final(self), out),
    {
        if !matches!(self.view_state, ViewState::ContainerList) {
            return Outcome::ignored();
        }
        self.sort_state = SortState::new(self.sort_state.field.next());
        self.refresh();
        Outcome::drawn()
    }

    /// Sorts by the given field: in the other direction if it is the
    /// active field, else in its default direction.
    pub fn handle_set_sort_field(&mut self, field: SortField) -> (out: Outcome)
        requires
            old(self).wf(),
        ensures
            final(self).wf(),
            Self::set_sort_field_post(*old(self), field, *final(self), out),
    {
        if !matches!(self.view_state, ViewState::ContainerList) {
            return Outcome::ignored();
        }
        if self.sort_state.field == field {
            self.sort_state.direction = self.sort_state.direction.toggle();
        } else {
            self.sort_state = SortState::new(field);
        }
        self.refresh();
        Outcome::drawn()
    }

    /// Shows or hides the containers that are not running.
    pub fn handle_toggle_show_all(&mut self) -> (out: Outcome)
        requires
            old(self).wf(),
        ensures
            final(self).wf(),
            Self::toggle_show_all_post(*old(self), *final(self), out),
    {
        if !matches!(self.view_state, ViewState::ContainerList) {
            return Outcome::ignored();
        }
        self.show_all_containers = !self.show_all_containers;
        self.refresh();
        Outcome::drawn()
    }

    /// Shows the containers of one host only, or of all hosts, and selects
    /// the first row.
    pub fn handle_select_host(&mut self, host_id: Option<HostId>) -> (out: Outcome)
        requires
            old(self).wf(),
        ensures
            final(self).wf(),
            Self::select_host_post(*old(self), host_id, *final(self), out),
    {
        if !matches!(self.view_state, ViewState::ContainerList) {
            return Outcome::ignored();
        }
        self.host_filter = host_id;
        self.sort_containers();
        if self.order.len() > 0 {
            self.selected = Some(0);
        } else {
            self.selected = None;
        }
        Outcome::drawn()
    }
}

} // verus!
