//! Events of the action menu, and the request to open the external log
//! viewer.

use crate::app_state::{connected, holds_key, position, AppState, Effect, Outcome};
use crate::log_view::untouched;
use crate::text::{trim_trailing, without_trailing};
use crate::types::{Container, ContainerAction, ContainerKey, ViewState};
use vstd::prelude::*;
use vstd::string::*;

verus! {

/// The key that a view speaks of, if it speaks of one.
pub open spec fn menu_key(view: ViewState) -> Option<ContainerKey> {
    match view {
        ViewState::ActionMenu(k) => Some(k),
        _ => None,
    }
}

/// The entries of the action menu on screen: the actions offered for the
/// state of its container. `None` where no menu is on screen or its
/// container is tracked no longer.
pub open spec fn menu_of(view: ViewState, cs: Seq<Container>) -> Option<Seq<ContainerAction>> {
    match menu_key(view) {
        Some(k) => if holds_key(cs, k@) {
            Some(ContainerAction::spec_available_for_state(cs[position(cs, k@)].state))
        } else {
            None
        },
        None => None,
    }
}

/// The selected menu entry, the first where none is selected.
pub open spec fn menu_cursor(selected: Option<usize>) -> usize {
    match selected {
        Some(s) => s,
        None => 0,
    }
}

/// The address of a container in the external log viewer: the viewer's
/// address without trailing slashes, then `/container/` and the
/// container's identifier.
pub open spec fn viewer_address(viewer: Seq<char>, container_id: Seq<char>) -> Seq<char> {
    without_trailing(viewer, '/') + "/container/"@ + container_id
}

impl AppState {
    /// What opening the action menu leaves behind.
    pub open spec fn show_action_menu_post(pre: AppState, post: AppState, out: Outcome) -> bool {
        if pre.view_state is ContainerList && pre.selected is Some {
            let key = pre.sorted_container_keys@[pre.selected->0 as int];
            &&& post == (AppState {
                view_state: ViewState::ActionMenu(key),
                action_selected: Some(0),
                ..pre
            })
            &&& out == (Outcome { redraw: true, effect: None })
        } else {
            untouched(pre, post, out)
        }
    }

    /// What closing the action menu leaves behind.
    pub open spec fn cancel_action_menu_post(pre: AppState, post: AppState, out: Outcome) -> bool {
        if pre.view_state is ActionMenu {
            &&& post == (AppState {
                view_state: ViewState::ContainerList,
                action_selected: None,
                ..pre
            })
            &&& out == (Outcome { redraw: true, effect: None })
        } else {
            untouched(pre, post, out)
        }
    }

    /// What moving up in the action menu leaves behind.
    pub open spec fn select_action_up_post(pre: AppState, post: AppState, out: Outcome) -> bool {
        let cursor = menu_cursor(pre.action_selected);
        match menu_of(pre.view_state, pre.containers@) {
            Some(actions) => if actions.len() > 0 && cursor > 0 {
                &&& post == (AppState { action_selected: Some((cursor - 1) as usize), ..pre })
                &&& out == (Outcome { redraw: true, effect: None })
            } else {
                untouched(pre, post, out)
            },
            None => untouched(pre, post, out),
        }
    }

    /// What moving down in the action menu leaves behind.
    pub open spec fn select_action_down_post(pre: AppState, post: AppState, out: Outcome) -> bool {
        let cursor = menu_cursor(pre.action_selected);
        match menu_of(pre.view_state, pre.containers@) {
            Some(actions) => if cursor + 1 < actions.len() {
                &&& post == (AppState { action_selected: Some((cursor + 1) as usize), ..pre })
                &&& out == (Outcome { redraw: true, effect: None })
            } else {
                untouched(pre, post, out)
            },
            None => untouched(pre, post, out),
        }
    }

    /// Whether the selected entry of the menu on screen can be run: an
    /// entry is selected, the menu has it, and the container's host is
    /// connected.
    pub open spec fn action_ready(self) -> bool {
        &&& self.action_selected is Some
        &&& menu_of(self.view_state, self.containers@) matches Some(actions)
        &&& self.action_selected->0 < actions.len()
        &&& connected(self.connected_hosts@, menu_key(self.view_state)->0.host_id@)
    }

    /// What running the selected action leaves behind.
    pub open spec fn execute_action_post(pre: AppState, post: AppState, out: Outcome) -> bool {
        if pre.action_ready() {
            let key = menu_key(pre.view_state)->0;
            let actions = menu_of(pre.view_state, pre.containers@)->0;
            &&& post == (AppState {
                view_state: ViewState::ContainerList,
                action_selected: None,
                ..pre
            })
            &&& out == (Outcome {
                redraw: true,
                effect: Some(Effect::RunAction(key, actions[pre.action_selected->0 as int])),
            })
        } else {
            untouched(pre, post, out)
        }
    }

    /// Whether the external log viewer can be opened: the container list
    /// is on screen, the dashboard does not run in a remote shell, and the
    /// selected container has a viewer.
    pub open spec fn viewer_ready(self) -> bool {
        &&& self.view_state is ContainerList
        &&& !self.is_ssh_session
        &&& self.selected is Some
        &&& self.containers@[self.order@[self.selected->0 as int] as int].dozzle_url is Some
    }

    /// What the request to open the external log viewer leaves behind.
    pub open spec fn open_dozzle_post(pre: AppState, post: AppState, out: Outcome) -> bool {
        if pre.viewer_ready() {
            let c = pre.containers@[pre.order@[pre.selected->0 as int] as int];
            &&& post == pre
            &&& !out.redraw
            &&& out.effect matches Some(Effect::OpenUrl(url))
            &&& url@ == viewer_address(c.dozzle_url->0@, c.id@)
        } else {
            untouched(pre, post, out)
        }
    }

    /// The entries of the action menu on screen.
    fn menu(&self) -> (r: Option<Vec<ContainerAction>>)
        requires
            self.wf(),
        ensures
            match menu_of(self.view_state, self.containers@) {
                Some(actions) => r is Some && r->0@ == actions,
                None => r is None,
            },
    {
        match &self.view_state {
            ViewState::ActionMenu(key) => match self.find(key) {
                Some(i) => Some(ContainerAction::available_for_state(&self.containers[i].state)),
                None => None,
            },
            _ => None,
        }
    }

    /// Opens the action menu for the selected container, on its first
    /// entry.
    pub fn handle_show_action_menu(&mut self) -> (out: Outcome)
        requires
            old(self).wf(),
        ensures
            final(self).wf(),
            Self::show_action_menu_post(*old(self), *final(self), out),
    {
        if !matches!(self.view_state, ViewState::ContainerList) {
            return Outcome::ignored();
        }
        match self.selected_key() {
            Some(key) => {
                self.view_state = ViewState::ActionMenu(key);
                self.action_selected = Some(0);
                Outcome::drawn()
            },
            None => Outcome::ignored(),
        }
    }

    /// Closes the action menu.
    pub fn handle_cancel_action_menu(&mut self) -> (out: Outcome)
        requires
            old(self).wf(),
        ensures
            final(self).wf(),
            Self::cancel_action_menu_post(*old(self), *final(self), out),
    {
        if !matches!(self.view_state, ViewState::ActionMenu(_)) {
            return Outcome::ignored();
        }
        self.view_state = ViewState::ContainerList;
        self.action_selected = None;
        Outcome::drawn()
    }

    /// Moves one entry up in the action menu, if there is one above.
    pub fn handle_select_action_up(&mut self) -> (out: Outcome)
        requires
            old(self).wf(),
        ensures
            final(self).wf(),
            Self::select_action_up_post(*old(self), *final(self), out),
    {
        let actions = match self.menu() {
            Some(a) => a,
            None => return Outcome::ignored(),
        };
        if actions.len() == 0 {
            return Outcome::ignored();
        }
        let cursor: usize = match self.action_selected {
            Some(s) => s,
            None => 0,
        };
        if cursor > 0 {
            self.action_selected = Some(cursor - 1);
            Outcome::drawn()
        } else {
            Outcome::ignored()
        }
    }

    /// Moves one entry down in the action menu, if there is one below.
    pub fn handle_select_action_down(&mut self) -> (out: Outcome)
        requires
            old(self).wf(),
        ensures
            final(self).wf(),
            Self::select_action_down_post(*old(self), *final(self), out),
    {
        let actions = match self.menu() {
            Some(a) => a,
            None => return Outcome::ignored(),
        };
        if actions.len() == 0 {
            return Outcome::ignored();
        }
        let cursor: usize = match self.action_selected {
            Some(s) => s,
            None => 0,
        };
        if cursor < actions.len() - 1 {
            self.action_selected = Some(cursor + 1);
            Outcome::drawn()
        } else {
            Outcome::ignored()
        }
    }

    /// Runs the selected action: the menu closes and the command goes out
    /// to the container's host. The container's state is left as it is;
    /// the daemon's own events will change it.
    pub fn handle_execute_action(&mut self) -> (out: Outcome)
        requires
            old(self).wf(),
        ensures
            final(self).wf(),
            Self::execute_action_post(*old(self), *final(self), out),
    {
        let selected: usize = match self.action_selected {
            Some(s) => s,
            None => return Outcome::ignored(),
        };
        let actions = match self.menu() {
            Some(a) => a,
            None => return Outcome::ignored(),
        };
        if selected >= actions.len() {
            return Outcome::ignored();
        }
        let action = actions[selected];
        let key = match &self.view_state {
            ViewState::ActionMenu(k) => k.clone(),
            _ => return Outcome::ignored(),
        };
        if !self.is_connected(key.host_id.as_str()) {
            return Outcome::ignored();
        }
        self.view_state = ViewState::ContainerList;
        self.action_selected = None;
        Outcome { redraw: true, effect: Some(Effect::RunAction(key, action)) }
    }

    /// Asks for the external log viewer to be opened on the selected
    /// container. Nothing is drawn.
    pub fn handle_open_dozzle(&mut self) -> (out: Outcome)
        requires
            old(self).wf(),
        ensures
            final(self).wf(),
            Self::open_dozzle_post(*old(self), *final(self), out),
    {
        if !matches!(self.view_state, ViewState::ContainerList) {
            return Outcome::ignored();
        }
        if self.is_ssh_session {
            return Outcome::ignored();
        }
        let selected: usize = match self.selected {
            Some(s) => s,
            None => return Outcome::ignored(),
        };
        let container = &self.containers[self.order[selected]];
        let viewer = match &container.dozzle_url {
            Some(u) => u,
            None => return Outcome::ignored(),
        };
        let mut url = trim_trailing(viewer.as_str(), '/');
        url.append("/container/");
        url.append(container.id.as_str());
        Outcome { redraw: false, effect: Some(Effect::OpenUrl(url)) }
    }
}

} // verus!
