//! Events that change the tracked containers.

use crate::app_state::{
    adjusted, distinct_keys, holds_key, lemma_position, position, upserted, without_key, AppState,
    Outcome,
};
use crate::projection::{is_shown, listed};
use crate::types::{
    Container, ContainerKey, ContainerState, ContainerStats, HealthStatus, HostId,
};
use vstd::prelude::*;

verus! {

/// `post` is `base` after the filter and sort pipeline ran and the
/// selection was fitted to its result.
pub open spec fn refreshed(base: AppState, post: AppState) -> bool {
    &&& post.lists_sorted()
    &&& post.selected == adjusted(base.selected, post.order@.len())
    &&& post == (AppState {
        order: post.order,
        sorted_container_keys: post.sorted_container_keys,
        selected: post.selected,
        ..base
    })
}

/// `post` is `pre` with the tracked containers replaced by `cs`, after the
/// pipeline ran and the selection was fitted.
pub open spec fn refreshed_with(pre: AppState, cs: Seq<Container>, post: AppState) -> bool {
    &&& post.containers@ == cs
    &&& refreshed(AppState { containers: post.containers, ..pre }, post)
}

/// A container as reported by the given host.
pub open spec fn with_host(c: Container, host: HostId) -> Container {
    Container { host_id: host, ..c }
}

/// The tracked containers after a host reported `list`, one arrival after
/// the other.
pub open spec fn upserted_all(cs: Seq<Container>, host: HostId, list: Seq<Container>) -> Seq<
    Container,
>
    decreases list.len(),
{
    if list.len() == 0 {
        cs
    } else {
        upserted(upserted_all(cs, host, list.drop_last()), with_host(list.last(), host))
    }
}

/// The tracked containers with a new state for the one with the given key.
pub open spec fn with_state(
    cs: Seq<Container>,
    key: (Seq<char>, Seq<char>),
    state: ContainerState,
) -> Seq<Container> {
    if holds_key(cs, key) {
        let i = position(cs, key);
        cs.update(i, Container { state, ..cs[i] })
    } else {
        cs
    }
}

/// The tracked containers with new statistics for the one with the given
/// key.
pub open spec fn with_stats(
    cs: Seq<Container>,
    key: (Seq<char>, Seq<char>),
    stats: ContainerStats,
) -> Seq<Container> {
    if holds_key(cs, key) {
        let i = position(cs, key);
        cs.update(i, Container { stats, ..cs[i] })
    } else {
        cs
    }
}

/// The tracked containers with a new health for the one with the given
/// key.
pub open spec fn with_health(
    cs: Seq<Container>,
    key: (Seq<char>, Seq<char>),
    health: HealthStatus,
) -> Seq<Container> {
    if holds_key(cs, key) {
        let i = position(cs, key);
        cs.update(i, Container { health: Some(health), ..cs[i] })
    } else {
        cs
    }
}

/// An arrival keeps the keys distinct.
pub proof fn lemma_upserted_distinct(cs: Seq<Container>, c: Container)
    requires
        distinct_keys(cs),
    ensures
        distinct_keys(upserted(cs, c)),
{
    let after = upserted(cs, c);
    if holds_key(cs, c.key_view()) {
        let p = position(cs, c.key_view());
        assert forall|i: int, j: int|
            0 <= i < after.len() && 0 <= j < after.len() && i != j implies (#[trigger] after[i]).key_view()
            != (#[trigger] after[j]).key_view() by {
            assert(after[i].key_view() == cs[i].key_view());
            assert(after[j].key_view() == cs[j].key_view());
        }
    } else {
        assert forall|i: int, j: int|
            0 <= i < after.len() && 0 <= j < after.len() && i != j implies (#[trigger] after[i]).key_view()
            != (#[trigger] after[j]).key_view() by {
            if i < cs.len() {
                assert(after[i] == cs[i]);
            }
            if j < cs.len() {
                assert(after[j] == cs[j]);
            }
        }
    }
}

/// A departure keeps the keys distinct.
pub proof fn lemma_without_key_distinct(cs: Seq<Container>, key: (Seq<char>, Seq<char>))
    requires
        distinct_keys(cs),
    ensures
        distinct_keys(without_key(cs, key)),
        !holds_key(without_key(cs, key), key),
{
    let after = without_key(cs, key);
    if holds_key(cs, key) {
        let p = position(cs, key);
        assert forall|i: int| 0 <= i < after.len() implies #[trigger] after[i] == cs[if i < p {
            i
        } else {
            i + 1
        }] by {}
        assert forall|i: int, j: int|
            0 <= i < after.len() && 0 <= j < after.len() && i != j implies (#[trigger] after[i]).key_view()
            != (#[trigger] after[j]).key_view() by {
            let i0 = if i < p {
                i
            } else {
                i + 1
            };
            let j0 = if j < p {
                j
            } else {
                j + 1
            };
            assert(after[i] == cs[i0]);
            assert(after[j] == cs[j0]);
        }
        assert forall|i: int| 0 <= i < after.len() implies (#[trigger] after[i]).key_view()
            != key by {
            let i0 = if i < p {
                i
            } else {
                i + 1
            };
            assert(after[i] == cs[i0]);
            assert(cs[i0].key_view() != cs[p].key_view());
        }
    }
}

/// Sending an arrival twice is the same as sending it once, and an arrival
/// under a known key adds no container.
pub proof fn lemma_upserted_idempotent(cs: Seq<Container>, c: Container)
    requires
        distinct_keys(cs),
    ensures
        upserted(upserted(cs, c), c) == upserted(cs, c),
        holds_key(cs, c.key_view()) ==> upserted(cs, c).len() == cs.len(),
        holds_key(upserted(cs, c), c.key_view()),
{
    let once = upserted(cs, c);
    lemma_upserted_distinct(cs, c);
    if holds_key(cs, c.key_view()) {
        let p = position(cs, c.key_view());
        assert(once[p] == c);
        lemma_position(once, c.key_view(), p);
        assert(once.update(p, c) =~= once);
    } else {
        let p = cs.len() as int;
        assert(once[p] == c);
        lemma_position(once, c.key_view(), p);
        assert(once.update(p, c) =~= once);
    }
}

/// The departure of a container that is not tracked changes nothing, and a
/// departure sent twice is the same as one sent once.
pub proof fn lemma_without_key_idempotent(cs: Seq<Container>, key: (Seq<char>, Seq<char>))
    requires
        distinct_keys(cs),
    ensures
        !holds_key(cs, key) ==> without_key(cs, key) == cs,
        without_key(without_key(cs, key), key) == without_key(cs, key),
{
    lemma_without_key_distinct(cs, key);
}

impl AppState {
    /// What an arrival leaves behind.
    pub open spec fn container_created_post(
        pre: AppState,
        c: Container,
        post: AppState,
        out: Outcome,
    ) -> bool {
        &&& refreshed_with(pre, upserted(pre.containers@, c), post)
        &&& out == (Outcome { redraw: true, effect: None })
    }

    /// What the first listing of a host leaves behind.
    pub open spec fn initial_container_list_post(
        pre: AppState,
        host: HostId,
        list: Seq<Container>,
        post: AppState,
        out: Outcome,
    ) -> bool {
        &&& refreshed_with(pre, upserted_all(pre.containers@, host, list), post)
        &&& out == (Outcome { redraw: true, effect: None })
    }

    /// What a departure leaves behind: the state without the container,
    /// after the pipeline ran; or, where no container with that key is
    /// tracked, the state as it was.
    pub open spec fn container_destroyed_post(
        pre: AppState,
        key: ContainerKey,
        post: AppState,
        out: Outcome,
    ) -> bool {
        &&& if holds_key(pre.containers@, key@) {
            refreshed_with(pre, without_key(pre.containers@, key@), post)
        } else {
            post == pre
        }
        &&& out == (Outcome { redraw: true, effect: None })
    }

    /// What a change of state leaves behind.
    pub open spec fn container_state_changed_post(
        pre: AppState,
        key: ContainerKey,
        state: ContainerState,
        post: AppState,
        out: Outcome,
    ) -> bool {
        if holds_key(pre.containers@, key@) {
            &&& refreshed_with(pre, with_state(pre.containers@, key@, state), post)
            &&& out == (Outcome { redraw: true, effect: None })
        } else {
            &&& post == pre
            &&& out == (Outcome { redraw: false, effect: None })
        }
    }

    /// What new statistics leave behind.
    pub open spec fn container_stat_post(
        pre: AppState,
        key: ContainerKey,
        stats: ContainerStats,
        post: AppState,
        out: Outcome,
    ) -> bool {
        &&& post.containers@ == with_stats(pre.containers@, key@, stats)
        &&& post == (AppState { containers: post.containers, ..pre })
        &&& out == (Outcome { redraw: false, effect: None })
    }

    /// What a change of health leaves behind.
    pub open spec fn container_health_changed_post(
        pre: AppState,
        key: ContainerKey,
        health: HealthStatus,
        post: AppState,
        out: Outcome,
    ) -> bool {
        &&& if holds_key(pre.containers@, key@) {
            refreshed_with(pre, with_health(pre.containers@, key@, health), post)
        } else {
            post == pre
        }
        &&& out == (Outcome { redraw: true, effect: None })
    }

    /// Tracks a container: in the place of the one with its key, or last.
    pub fn upsert(&mut self, c: Container)
        requires
            distinct_keys(old(self).containers@),
        ensures
            final(self).containers@ == upserted(old(self).containers@, c),
            distinct_keys(final(self).containers@),
            *final(self) == (AppState { containers: final(self).containers, ..*old(self) }),
    {
        proof {
            lemma_upserted_distinct(self.containers@, c);
        }
        let key = c.key();
        match self.find(&key) {
            Some(i) => {
                self.containers[i] = c;
            },
            None => {
                self.containers.push(c);
            },
        }
    }

    /// A container was started: it is tracked from now on, in the place of
    /// any container that had its key. The list is rebuilt and drawn.
    pub fn handle_container_created(&mut self, container: Container) -> (out: Outcome)
        requires
            old(self).wf(),
        ensures
            final(self).wf(),
            Self::container_created_post(*old(self), container, *final(self), out),
    {
        self.upsert(container);
        self.refresh();
        Outcome::drawn()
    }

    /// A host listed its containers: each is tracked under that host, as
    /// if it had arrived alone, in the order of the list. The list is
    /// rebuilt and drawn.
    pub fn handle_initial_container_list(&mut self, host_id: HostId, container_list: Vec<Container>) -> (out:
        Outcome)
        requires
            old(self).wf(),
        ensures
            final(self).wf(),
            Self::initial_container_list_post(
                *old(self),
                host_id,
                container_list@,
                *final(self),
                out,
            ),
    {
        let mut i: usize = 0;
        while i < container_list.len()
            invariant
                i <= container_list@.len(),
                distinct_keys(self.containers@),
                self.containers@ == upserted_all(
                    old(self).containers@,
                    host_id,
                    container_list@.take(i as int),
                ),
                *self == (AppState { containers: self.containers, ..*old(self) }),
            decreases container_list.len() - i,
        {
            let mut c = container_list[i].clone();
            c.host_id = host_id.clone();
            proof {
                let next = container_list@.take(i + 1);
                assert(next.drop_last() =~= container_list@.take(i as int));
                assert(next.last() == container_list@[i as int]);
                assert(c == with_host(container_list@[i as int], host_id));
            }
            self.upsert(c);
            i = i + 1;
        }
        proof {
            assert(container_list@.take(i as int) =~= container_list@);
        }
        self.refresh();
        Outcome::drawn()
    }

    /// A container stopped or was removed: it is tracked no longer, and
    /// the list is rebuilt. The departure of a container that is not
    /// tracked leaves the state as it is. Either way the screen is drawn.
    pub fn handle_container_destroyed(&mut self, key: ContainerKey) -> (out: Outcome)
        requires
            old(self).wf(),
        ensures
            final(self).wf(),
            Self::container_destroyed_post(*old(self), key, *final(self), out),
    {
        proof {
            lemma_without_key_distinct(self.containers@, key@);
        }
        match self.find(&key) {
            Some(i) => {
                let _ = self.containers.remove(i);
                self.refresh();
            },
            None => {},
        }
        Outcome::drawn()
    }

    /// A container changed state. For a container that is not tracked
    /// nothing happens.
    pub fn handle_container_state_changed(&mut self, key: ContainerKey, state: ContainerState) -> (out:
        Outcome)
        requires
            old(self).wf(),
        ensures
            final(self).wf(),
            Self::container_state_changed_post(*old(self), key, state, *final(self), out),
    {
        match self.find(&key) {
            Some(i) => {
                let ghost before = self.containers@;
                self.containers[i].state = state;
                proof {
                    let after = self.containers@;
                    assert(after =~= before.update(i as int, Container { state, ..before[i as int] }));
                    assert forall|a: int, b: int|
                        0 <= a < after.len() && 0 <= b < after.len() && a != b implies (
                    #[trigger] after[a]).key_view() != (#[trigger] after[b]).key_view() by {
                        assert(after[a].key_view() == before[a].key_view());
                        assert(after[b].key_view() == before[b].key_view());
                    }
                }
                self.refresh();
                Outcome::drawn()
            },
            None => Outcome::ignored(),
        }
    }

    /// New statistics for a container. They are kept and not drawn: the
    /// periodic drawing shows them. The shown list keeps its order until
    /// the pipeline next runs.
    pub fn handle_container_stat(&mut self, key: ContainerKey, stats: ContainerStats) -> (out:
        Outcome)
        requires
            old(self).wf(),
        ensures
            final(self).wf(),
            Self::container_stat_post(*old(self), key, stats, *final(self), out),
    {
        match self.find(&key) {
            Some(i) => {
                let ghost before = self.containers@;
                self.containers[i].stats = stats;
                proof {
                    let after = self.containers@;
                    assert(after =~= before.update(i as int, Container { stats, ..before[i as int] }));
                    self.lemma_same_keys_and_filter(*old(self));
                }
            },
            None => {},
        }
        Outcome::ignored()
    }

    /// A container's health check changed its verdict. It is always drawn.
    pub fn handle_container_health_changed(&mut self, key: ContainerKey, health: HealthStatus) -> (out:
        Outcome)
        requires
            old(self).wf(),
        ensures
            final(self).wf(),
            Self::container_health_changed_post(*old(self), key, health, *final(self), out),
    {
        match self.find(&key) {
            Some(i) => {
                let ghost before = self.containers@;
                self.containers[i].health = Some(health);
                proof {
                    let after = self.containers@;
                    assert(after =~= before.update(
                        i as int,
                        Container { health: Some(health), ..before[i as int] },
                    ));
                    assert forall|a: int, b: int|
                        0 <= a < after.len() && 0 <= b < after.len() && a != b implies (
                    #[trigger] after[a]).key_view() != (#[trigger] after[b]).key_view() by {
                        assert(after[a].key_view() == before[a].key_view());
                        assert(after[b].key_view() == before[b].key_view());
                    }
                }
                self.refresh();
            },
            None => {},
        }
        Outcome::drawn()
    }

    /// A state whose containers differ from those of a well-formed state
    /// in nothing that the keys or the filter read is well-formed too.
    pub proof fn lemma_same_keys_and_filter(self, pre: AppState)
        requires
            pre.wf(),
            self == (AppState { containers: self.containers, ..pre }),
            self.containers@.len() == pre.containers@.len(),
            forall|i: int|
                0 <= i < pre.containers@.len() ==> {
                    &&& (#[trigger] self.containers@[i]).key_view() == pre.containers@[i].key_view()
                    &&& self.containers@[i].name == pre.containers@[i].name
                    &&& self.containers@[i].state == pre.containers@[i].state
                },
        ensures
            self.wf(),
    {
        let cs = self.containers@;
        let ps = pre.containers@;
        let host = crate::projection::host_view(self.host_filter);
        assert forall|j: int| 0 <= j < cs.len() implies is_shown(
            #[trigger] cs[j],
            self.show_all_containers,
            host,
            self.search_text(),
        ) == is_shown(ps[j], self.show_all_containers, host, self.search_text()) by {
            assert(cs[j].key_view() == ps[j].key_view());
        }
        assert forall|j: int|
            0 <= j < cs.len() && is_shown(
                #[trigger] cs[j],
                self.show_all_containers,
                host,
                self.search_text(),
            ) implies listed(self.order@, j) by {
            assert(is_shown(ps[j], self.show_all_containers, host, self.search_text()));
        }
        assert forall|i: int, j: int|
            0 <= i < cs.len() && 0 <= j < cs.len() && i != j implies (#[trigger] cs[i]).key_view()
            != (#[trigger] cs[j]).key_view() by {
            assert(cs[i].key_view() == ps[i].key_view());
            assert(cs[j].key_view() == ps[j].key_view());
        }
        assert forall|k: int| 0 <= k < self.order@.len() implies (#[trigger] self.order@[k])
            < cs.len() && is_shown(
            cs[self.order@[k] as int],
            self.show_all_containers,
            host,
            self.search_text(),
        ) by {
            let j = self.order@[k] as int;
            assert(cs[j].key_view() == ps[j].key_view());
        }
        assert forall|k: int| 0 <= k < self.sorted_container_keys@.len() implies (
        #[trigger] self.sorted_container_keys@[k])@ == cs[self.order@[k] as int].key_view() by {
            let j = self.order@[k] as int;
            assert(cs[j].key_view() == ps[j].key_view());
        }
    }
}

} // verus!
