//! Testing a state against its invariant, for surroundings that cannot
//! know it to hold.

use crate::app_state::{distinct_keys, AppState};
use crate::projection::{host_view, is_shown, is_visible_selection, keys_follow, listed, shown};
use crate::text::same_text;
use crate::types::{Container, ViewState};
use vstd::prelude::*;
use vstd::string::*;

verus! {

/// Whether two containers are tracked under the same key.
fn same_key(a: &Container, b: &Container) -> (r: bool)
    ensures
        r == (a.key_view() == b.key_view()),
{
    same_text(a.host_id.as_str(), b.host_id.as_str()) && same_text(a.id.as_str(), b.id.as_str())
}

/// Whether no two containers have the same key.
fn keys_are_distinct(cs: &Vec<Container>) -> (r: bool)
    ensures
        r == distinct_keys(cs@),
{
    let mut i: usize = 0;
    while i < cs.len()
        invariant
            i <= cs@.len(),
            forall|a: int, b: int|
                0 <= b < a < i ==> (#[trigger] cs@[a]).key_view() != (#[trigger] cs@[b]).key_view(),
        decreases cs.len() - i,
    {
        let mut j: usize = 0;
        while j < i
            invariant
                j <= i < cs@.len(),
                forall|b: int| 0 <= b < j ==> cs@[i as int].key_view() != (#[trigger] cs@[b]).key_view(),
            decreases i - j,
        {
            if same_key(&cs[i], &cs[j]) {
                return false;
            }
            j = j + 1;
        }
        i = i + 1;
    }
    proof {
        assert forall|a: int, b: int|
            0 <= a < cs@.len() && 0 <= b < cs@.len() && a != b implies (#[trigger] cs@[a]).key_view()
            != (#[trigger] cs@[b]).key_view() by {
            if a < b {
                assert(cs@[b].key_view() != cs@[a].key_view());
            }
        }
    }
    true
}

/// Whether no position occurs twice.
fn positions_are_distinct(order: &Vec<usize>) -> (r: bool)
    ensures
        r == forall|k1: int, k2: int|
            0 <= k1 < order@.len() && 0 <= k2 < order@.len() && k1 != k2 ==> #[trigger] order@[k1]
                != #[trigger] order@[k2],
{
    let mut i: usize = 0;
    while i < order.len()
        invariant
            i <= order@.len(),
            forall|a: int, b: int| 0 <= b < a < i ==> #[trigger] order@[a] != #[trigger] order@[b],
        decreases order.len() - i,
    {
        let mut j: usize = 0;
        while j < i
            invariant
                j <= i < order@.len(),
                forall|b: int| 0 <= b < j ==> order@[i as int] != #[trigger] order@[b],
            decreases i - j,
        {
            if order[i] == order[j] {
                return false;
            }
            j = j + 1;
        }
        i = i + 1;
    }
    proof {
        assert forall|k1: int, k2: int|
            0 <= k1 < order@.len() && 0 <= k2 < order@.len() && k1 != k2 implies #[trigger] order@[k1]
            != #[trigger] order@[k2] by {
            if k1 < k2 {
                assert(order@[k2] != order@[k1]);
            }
        }
    }
    true
}

/// Whether a position occurs in the list.
fn is_listed(order: &Vec<usize>, j: usize) -> (r: bool)
    ensures
        r == listed(order@, j as int),
{
    let mut k: usize = 0;
    while k < order.len()
        invariant
            k <= order@.len(),
            forall|m: int| 0 <= m < k ==> #[trigger] order@[m] != j,
        decreases order.len() - k,
    {
        if order[k] == j {
            return true;
        }
        k = k + 1;
    }
    false
}

impl crate::monitor::Monitor {
    /// Tests the invariant of the monitor: no container is active twice.
    pub fn is_valid(&self) -> (r: bool)
        ensures
            r == self.wf(),
    {
        let mut i: usize = 0;
        while i < self.active.len()
            invariant
                i <= self.active@.len(),
                forall|a: int, b: int|
                    0 <= b < a < i ==> (#[trigger] self.active@[a])@ != (#[trigger] self.active@[b])@,
            decreases self.active.len() - i,
        {
            let mut j: usize = 0;
            while j < i
                invariant
                    j <= i < self.active@.len(),
                    forall|b: int|
                        0 <= b < j ==> self.active@[i as int]@ != (#[trigger] self.active@[b])@,
                decreases i - j,
            {
                if same_text(self.active[i].as_str(), self.active[j].as_str()) {
                    return false;
                }
                j = j + 1;
            }
            i = i + 1;
        }
        proof {
            assert forall|a: int, b: int|
                0 <= a < self.active@.len() && 0 <= b < self.active@.len() && a != b implies (
            #[trigger] self.active@[a])@ != (#[trigger] self.active@[b])@ by {
                if a < b {
                    assert(self.active@[b]@ != self.active@[a]@);
                }
            }
        }
        true
    }
}

impl AppState {
    /// Whether the shown list holds the positions of exactly the tracked
    /// containers that pass the filter, each once.
    fn selection_is_valid(&self) -> (r: bool)
        ensures
            r == is_visible_selection(
                self.order@,
                self.containers@,
                self.show_all_containers,
                host_view(self.host_filter),
                self.search_text(),
            ),
    {
        let search = self.search_input.value.as_str();
        let mut k: usize = 0;
        while k < self.order.len()
            invariant
                k <= self.order@.len(),
                search@ == self.search_text(),
                forall|m: int|
                    0 <= m < k ==> (#[trigger] self.order@[m]) < self.containers@.len() && is_shown(
                        self.containers@[self.order@[m] as int],
                        self.show_all_containers,
                        host_view(self.host_filter),
                        self.search_text(),
                    ),
            decreases self.order.len() - k,
        {
            let p: usize = self.order[k];
            if p >= self.containers.len() {
                return false;
            }
            if !shown(&self.containers[p], self.show_all_containers, &self.host_filter, search) {
                return false;
            }
            k = k + 1;
        }
        let mut j: usize = 0;
        while j < self.containers.len()
            invariant
                j <= self.containers@.len(),
                search@ == self.search_text(),
                forall|m: int|
                    0 <= m < j && is_shown(
                        #[trigger] self.containers@[m],
                        self.show_all_containers,
                        host_view(self.host_filter),
                        self.search_text(),
                    ) ==> listed(self.order@, m),
            decreases self.containers.len() - j,
        {
            if shown(&self.containers[j], self.show_all_containers, &self.host_filter, search)
                && !is_listed(&self.order, j) {
                return false;
            }
            j = j + 1;
        }
        positions_are_distinct(&self.order)
    }

    /// Whether the key list names the containers of the shown list.
    fn keys_are_valid(&self) -> (r: bool)
        requires
            forall|k: int|
                0 <= k < self.order@.len() ==> (#[trigger] self.order@[k]) < self.containers@.len(),
        ensures
            r == keys_follow(self.sorted_container_keys@, self.order@, self.containers@),
    {
        if self.sorted_container_keys.len() != self.order.len() {
            return false;
        }
        let mut k: usize = 0;
        while k < self.order.len()
            invariant
                k <= self.order@.len(),
                self.sorted_container_keys@.len() == self.order@.len(),
                forall|m: int|
                    0 <= m < self.order@.len() ==> (#[trigger] self.order@[m])
                        < self.containers@.len(),
                forall|m: int|
                    0 <= m < k ==> (#[trigger] self.sorted_container_keys@[m])@
                        == self.containers@[self.order@[m] as int].key_view(),
            decreases self.order.len() - k,
        {
            if !self.containers[self.order[k]].has_key(&self.sorted_container_keys[k]) {
                return false;
            }
            k = k + 1;
        }
        true
    }

    /// Whether the log view and the log go together.
    fn log_is_valid(&self) -> (r: bool)
        ensures
            r == self.log_ok(),
    {
        match (&self.view_state, &self.log) {
            (ViewState::LogView(k), Some(log)) => log.key.same_as(k),
            (ViewState::LogView(_), None) => false,
            (_, Some(_)) => false,
            (_, None) => !self.log_stream_active,
        }
    }

    /// Tests the invariant of the state. States made by [`AppState::new`]
    /// and changed by events alone always pass; a state whose fields were
    /// written from outside may not.
    pub fn is_valid(&self) -> (r: bool)
        ensures
            r == self.wf(),
    {
        if !keys_are_distinct(&self.containers) {
            return false;
        }
        if !self.selection_is_valid() {
            return false;
        }
        if !self.keys_are_valid() {
            return false;
        }
        let selection_ok = match self.selected {
            Some(s) => s < self.order.len(),
            None => self.order.len() == 0,
        };
        if !selection_ok {
            return false;
        }
        if self.search_input.cursor > self.search_input.value.as_str().unicode_len() {
            return false;
        }
        self.log_is_valid()
    }
}

} // verus!
