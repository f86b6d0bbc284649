//! What holds of every run of the state machine, whatever events come and
//! in whatever order.

use crate::app_state::{distinct_keys, holds_key, position, AppState, Outcome};
use crate::container_events::{
    lemma_upserted_distinct, lemma_without_key_distinct, refreshed, upserted_all, with_host,
};
use crate::dispatch::{is_run, live_tails, tails_after, tails_after_all};
use crate::projection::{host_view, is_visible_selection, lemma_visible_order_selects};
use crate::types::{AppEvent, Container, HostId};
use vstd::prelude::*;

verus! {

/// A first listing keeps the keys distinct.
pub proof fn lemma_upserted_all_distinct(cs: Seq<Container>, host: HostId, list: Seq<Container>)
    requires
        distinct_keys(cs),
    ensures
        distinct_keys(upserted_all(cs, host, list)),
    decreases list.len(),
{
    if list.len() > 0 {
        lemma_upserted_all_distinct(cs, host, list.drop_last());
        lemma_upserted_distinct(
            upserted_all(cs, host, list.drop_last()),
            with_host(list.last(), host),
        );
    }
}

/// Replacing a container by one with the same key keeps the keys
/// distinct.
pub proof fn lemma_update_keeps_keys(cs: Seq<Container>, i: int, c: Container)
    requires
        distinct_keys(cs),
        0 <= i < cs.len(),
        c.key_view() == cs[i].key_view(),
    ensures
        distinct_keys(cs.update(i, c)),
{
    let after = cs.update(i, c);
    assert forall|a: int, b: int|
        0 <= a < after.len() && 0 <= b < after.len() && a != b implies (#[trigger] after[a]).key_view()
        != (#[trigger] after[b]).key_view() by {
        assert(after[a].key_view() == cs[a].key_view());
        assert(after[b].key_view() == cs[b].key_view());
    }
}

/// A state that the pipeline has just run on, over distinct keys, meets
/// the part of the invariant that speaks of the containers and their list.
pub proof fn lemma_refreshed_is_well_formed(base: AppState, post: AppState)
    requires
        refreshed(base, post),
        distinct_keys(base.containers@),
        base.search_input.wf(),
    ensures
        post.wf_lists(),
{
    lemma_visible_order_selects(
        post.order@,
        post.containers@,
        post.show_all_containers,
        host_view(post.host_filter),
        post.search_text(),
        post.sort_state,
    );
}

/// Every event leaves the invariant of the state in place: each key is
/// tracked once; the shown list holds exactly the tracked containers that
/// pass the filter, each once; a row is selected exactly when the list has
/// rows, and it is one of them; and a log is kept exactly in the log view.
pub proof fn lemma_event_keeps_invariant(pre: AppState, event: AppEvent, post: AppState, out: Outcome)
    requires
        pre.wf(),
        AppState::event_post(pre, event, post, out),
    ensures
        post.wf(),
{
    let cs = pre.containers@;
    match event {
        AppEvent::InitialContainerList(host, list) => {
            lemma_upserted_all_distinct(cs, host, list@);
            lemma_refreshed_is_well_formed(AppState { containers: post.containers, ..pre }, post);
        },
        AppEvent::ContainerCreated(c) => {
            lemma_upserted_distinct(cs, c);
            lemma_refreshed_is_well_formed(AppState { containers: post.containers, ..pre }, post);
        },
        AppEvent::ContainerDestroyed(key) => {
            if holds_key(cs, key@) {
                lemma_without_key_distinct(cs, key@);
                lemma_refreshed_is_well_formed(
                    AppState { containers: post.containers, ..pre },
                    post,
                );
            }
        },
        AppEvent::ContainerStateChanged(key, state) => {
            if holds_key(cs, key@) {
                let i = position(cs, key@);
                lemma_update_keeps_keys(cs, i, Container { state, ..cs[i] });
                lemma_refreshed_is_well_formed(
                    AppState { containers: post.containers, ..pre },
                    post,
                );
            }
        },
        AppEvent::ContainerStat(key, stats) => {
            if holds_key(cs, key@) {
                let i = position(cs, key@);
                lemma_update_keeps_keys(cs, i, Container { stats, ..cs[i] });
                post.lemma_same_keys_and_filter(pre);
            } else {
                post.lemma_same_keys_and_filter(pre);
            }
        },
        AppEvent::ContainerHealthChanged(key, health) => {
            if holds_key(cs, key@) {
                let i = position(cs, key@);
                lemma_update_keeps_keys(cs, i, Container { health: Some(health), ..cs[i] });
                lemma_refreshed_is_well_formed(
                    AppState { containers: post.containers, ..pre },
                    post,
                );
            }
        },
        AppEvent::CycleSortField => {
            if pre.view_state is ContainerList {
                lemma_refreshed_is_well_formed(
                    AppState {
                        sort_state: crate::types::SortState::spec_new(
                            pre.sort_state.field.spec_next(),
                        ),
                        ..pre
                    },
                    post,
                );
            }
        },
        AppEvent::SetSortField(field) => {
            if pre.view_state is ContainerList {
                lemma_refreshed_is_well_formed(
                    AppState {
                        sort_state: crate::navigation::sort_state_for(pre.sort_state, field),
                        ..pre
                    },
                    post,
                );
            }
        },
        AppEvent::ToggleShowAll => {
            if pre.view_state is ContainerList {
                lemma_refreshed_is_well_formed(
                    AppState { show_all_containers: !pre.show_all_containers, ..pre },
                    post,
                );
            }
        },
        AppEvent::SelectHost(host) => {
            if pre.view_state is ContainerList {
                lemma_visible_order_selects(
                    post.order@,
                    post.containers@,
                    post.show_all_containers,
                    host_view(post.host_filter),
                    post.search_text(),
                    post.sort_state,
                );
            }
        },
        AppEvent::EnterSearchMode => {
            if pre.view_state is ContainerList {
                lemma_refreshed_is_well_formed(
                    AppState {
                        view_state: crate::types::ViewState::SearchMode,
                        search_input: post.search_input,
                        ..pre
                    },
                    post,
                );
            }
        },
        AppEvent::ExitSearchMode => {
            if pre.view_state is SearchMode {
                lemma_refreshed_is_well_formed(
                    AppState {
                        view_state: crate::types::ViewState::ContainerList,
                        search_input: post.search_input,
                        ..pre
                    },
                    post,
                );
            }
        },
        AppEvent::SearchKeyEvent(key) => {
            if pre.view_state is SearchMode {
                if key is Esc {
                    lemma_refreshed_is_well_formed(
                        AppState {
                            view_state: crate::types::ViewState::ContainerList,
                            search_input: post.search_input,
                            ..pre
                        },
                        post,
                    );
                } else if crate::search_input::is_editing_key(key) {
                    lemma_refreshed_is_well_formed(
                        AppState { search_input: post.search_input, ..pre },
                        post,
                    );
                }
            }
        },
        _ => {},
    }
}

/// In every run each state meets the invariant.
pub proof fn lemma_run_keeps_invariant(
    states: Seq<AppState>,
    events: Seq<AppEvent>,
    outs: Seq<Outcome>,
    n: int,
)
    requires
        is_run(states, events, outs),
        0 <= n <= events.len(),
    ensures
        states[n].wf(),
    decreases n,
{
    if n > 0 {
        lemma_run_keeps_invariant(states, events, outs, n - 1);
        lemma_event_keeps_invariant(states[n - 1], events[n - 1], states[n], outs[n - 1]);
    }
}

/// Handling an event starts a live tail only when none runs and stops one
/// only when one runs: after the work asked for is done, a live tail runs
/// only while a log is in view, and it is the tail of that log, started
/// for a container whose host was connected.
pub proof fn lemma_event_keeps_one_tail(pre: AppState, event: AppEvent, post: AppState, out: Outcome)
    requires
        pre.wf(),
        AppState::event_post(pre, event, post, out),
    ensures
        live_tails(post) == tails_after(live_tails(pre), out.effect),
        0 <= live_tails(post) <= 1,
        live_tails(post) == 1 ==> post.log is Some,
        out.effect matches Some(crate::app_state::Effect::StartLogStream(k)) ==> {
            &&& post.log is Some
            &&& post.log->0.key == k
            &&& crate::app_state::connected(pre.connected_hosts@, k.host_id@)
        },
{
}

/// However many events are handled, at most one live tail runs at any
/// instant: after each event the number of tails started and not stopped
/// is one or none, and none unless a log is in view.
pub proof fn lemma_run_keeps_one_tail(
    states: Seq<AppState>,
    events: Seq<AppEvent>,
    outs: Seq<Outcome>,
    n: int,
)
    requires
        is_run(states, events, outs),
        0 <= n <= events.len(),
    ensures
        tails_after_all(live_tails(states[0]), outs.take(n)) == live_tails(states[n]),
        0 <= live_tails(states[n]) <= 1,
        live_tails(states[n]) == 1 ==> states[n].log is Some,
    decreases n,
{
    if n > 0 {
        lemma_run_keeps_one_tail(states, events, outs, n - 1);
        lemma_run_keeps_invariant(states, events, outs, n - 1);
        lemma_event_keeps_one_tail(states[n - 1], events[n - 1], states[n], outs[n - 1]);
        assert(outs.take(n).drop_last() =~= outs.take(n - 1));
        assert(outs.take(n).last() == outs[n - 1]);
    } else {
        assert(outs.take(0).len() == 0);
    }
}

/// In every run the shown list holds exactly the tracked containers that
/// pass the filter in force, each once, and a row is selected exactly when
/// the list has rows.
pub proof fn lemma_run_keeps_list(
    states: Seq<AppState>,
    events: Seq<AppEvent>,
    outs: Seq<Outcome>,
    n: int,
)
    requires
        is_run(states, events, outs),
        0 <= n <= events.len(),
    ensures
        is_visible_selection(
            states[n].order@,
            states[n].containers@,
            states[n].show_all_containers,
            host_view(states[n].host_filter),
            states[n].search_text(),
        ),
        distinct_keys(states[n].containers@),
        states[n].selected is None <==> states[n].order@.len() == 0,
        states[n].selected matches Some(s) ==> s < states[n].order@.len(),
{
    lemma_run_keeps_invariant(states, events, outs, n);
}

/// Whether an event runs the filter and sort pipeline in the given state:
/// every change to the tracked containers but new statistics does, and so
/// does every change to the filter and sort settings in the view that
/// accepts it. An event for a container that is not tracked changes
/// nothing and runs nothing, unless it is an arrival.
pub open spec fn runs_pipeline(pre: AppState, event: AppEvent) -> bool {
    match event {
        AppEvent::InitialContainerList(_, _) => true,
        AppEvent::ContainerCreated(_) => true,
        AppEvent::ContainerDestroyed(key) => holds_key(pre.containers@, key@),
        AppEvent::ContainerStateChanged(key, _) => holds_key(pre.containers@, key@),
        AppEvent::ContainerHealthChanged(key, _) => holds_key(pre.containers@, key@),
        AppEvent::CycleSortField => pre.view_state is ContainerList,
        AppEvent::SetSortField(_) => pre.view_state is ContainerList,
        AppEvent::ToggleShowAll => pre.view_state is ContainerList,
        AppEvent::SelectHost(_) => pre.view_state is ContainerList,
        AppEvent::EnterSearchMode => pre.view_state is ContainerList,
        AppEvent::ExitSearchMode => pre.view_state is SearchMode,
        AppEvent::SearchKeyEvent(key) => pre.view_state is SearchMode && (key is Esc
            || crate::search_input::is_editing_key(key)),
        _ => false,
    }
}

/// After every event that runs the pipeline the shown list is in order:
/// from row to row hosts never descend, whatever the sort field; within
/// one host the sort field never descends in the direction in force; and
/// containers that are equal in both stand in the order of their arrival.
pub proof fn lemma_pipeline_sorts(
    pre: AppState,
    event: AppEvent,
    post: AppState,
    out: Outcome,
    k1: int,
    k2: int,
)
    requires
        pre.wf(),
        runs_pipeline(pre, event),
        AppState::event_post(pre, event, post, out),
        0 <= k1 < k2 < post.order@.len(),
    ensures
        post.lists_sorted(),
        crate::order::host_order(
            post.containers@[post.order@[k1] as int],
            post.containers@[post.order@[k2] as int],
        ) <= 0,
        post.containers@[post.order@[k1] as int].host_id@
            == post.containers@[post.order@[k2] as int].host_id@ ==> crate::order::field_order(
            post.containers@[post.order@[k1] as int],
            post.containers@[post.order@[k2] as int],
            post.sort_state,
        ) <= 0,
        crate::order::container_order(
            post.containers@[post.order@[k1] as int],
            post.containers@[post.order@[k2] as int],
            post.sort_state,
        ) == 0 ==> post.order@[k1] < post.order@[k2],
{
    crate::projection::lemma_visible_order_sorted(
        post.order@,
        post.containers@,
        post.show_all_containers,
        host_view(post.host_filter),
        post.search_text(),
        post.sort_state,
        k1,
        k2,
    );
}

/// The keys of a shown list: what the list names, row by row.
pub open spec fn key_views(state: AppState) -> Seq<(Seq<char>, Seq<char>)> {
    Seq::new(state.sorted_container_keys@.len(), |i: int| state.sorted_container_keys@[i]@)
}

/// An arrival that is sent twice leaves the state that it left when sent
/// once: the same containers, the same shown list, the same selection. No
/// container and no row is there twice.
pub proof fn lemma_duplicate_arrival_changes_nothing(
    before: AppState,
    c: Container,
    once: AppState,
    out1: Outcome,
    twice: AppState,
    out2: Outcome,
)
    requires
        before.wf(),
        AppState::event_post(before, AppEvent::ContainerCreated(c), once, out1),
        AppState::event_post(once, AppEvent::ContainerCreated(c), twice, out2),
    ensures
        twice.containers@ == once.containers@,
        twice.order@ == once.order@,
        key_views(twice) == key_views(once),
        twice.selected == once.selected,
        once.containers@.len() <= before.containers@.len() + 1,
        distinct_keys(twice.containers@),
{
    lemma_event_keeps_invariant(before, AppEvent::ContainerCreated(c), once, out1);
    lemma_event_keeps_invariant(once, AppEvent::ContainerCreated(c), twice, out2);
    crate::container_events::lemma_upserted_idempotent(before.containers@, c);
    crate::projection::lemma_visible_order_unique(
        twice.order@,
        once.order@,
        once.containers@,
        once.show_all_containers,
        host_view(once.host_filter),
        once.search_text(),
        once.sort_state,
    );
    assert(key_views(twice) =~= key_views(once));
}

/// The departure of a container that is not tracked leaves the state as
/// it is: the same containers, the same shown list row by row, the same
/// selection. Only the drawing is asked for.
pub proof fn lemma_departure_of_a_stranger_changes_nothing(
    before: AppState,
    key: crate::types::ContainerKey,
    after: AppState,
    out: Outcome,
)
    requires
        before.wf(),
        !holds_key(before.containers@, key@),
        AppState::event_post(before, AppEvent::ContainerDestroyed(key), after, out),
    ensures
        after == before,
        out == (Outcome { redraw: true, effect: None }),
        key_views(after) == key_views(before),
        after.wf(),
{
}

/// A departure that is sent twice leaves the state that it left when sent
/// once.
pub proof fn lemma_duplicate_departure_changes_nothing(
    before: AppState,
    key: crate::types::ContainerKey,
    once: AppState,
    out1: Outcome,
    twice: AppState,
    out2: Outcome,
)
    requires
        before.wf(),
        AppState::event_post(before, AppEvent::ContainerDestroyed(key), once, out1),
        AppState::event_post(once, AppEvent::ContainerDestroyed(key), twice, out2),
    ensures
        twice == once,
        !holds_key(once.containers@, key@),
{
    lemma_without_key_distinct(before.containers@, key@);
}

/// Two shown lists of the same containers under the same filter have the
/// same rows, in whatever order, and so the same length.
pub proof fn lemma_same_rows(a: AppState, b: AppState)
    requires
        a.wf_lists(),
        b.wf_lists(),
        a.containers@ == b.containers@,
        a.show_all_containers == b.show_all_containers,
        host_view(a.host_filter) == host_view(b.host_filter),
        a.search_text() == b.search_text(),
    ensures
        forall|j: int|
            crate::projection::listed(a.order@, j) <==> crate::projection::listed(b.order@, j),
        a.order@.len() == b.order@.len(),
{
    assert forall|j: int| crate::projection::listed(a.order@, j) implies crate::projection::listed(
        b.order@,
        j,
    ) by {
        let k = choose|k: int| 0 <= k < a.order@.len() && #[trigger] a.order@[k] == j;
        assert(crate::projection::is_shown(
            b.containers@[j],
            b.show_all_containers,
            host_view(b.host_filter),
            b.search_text(),
        ));
    }
    assert forall|j: int| crate::projection::listed(b.order@, j) implies crate::projection::listed(
        a.order@,
        j,
    ) by {
        let k = choose|k: int| 0 <= k < b.order@.len() && #[trigger] b.order@[k] == j;
        assert(crate::projection::is_shown(
            a.containers@[j],
            a.show_all_containers,
            host_view(a.host_filter),
            a.search_text(),
        ));
    }
    lemma_distinct_rows_count(a.order@, b.order@);
    lemma_distinct_rows_count(b.order@, a.order@);
}

/// A list without repetitions whose every row occurs in another list is no
/// longer than that list.
pub proof fn lemma_distinct_rows_count(a: Seq<usize>, b: Seq<usize>)
    requires
        forall|k1: int, k2: int|
            0 <= k1 < a.len() && 0 <= k2 < a.len() && k1 != k2 ==> #[trigger] a[k1]
                != #[trigger] a[k2],
        forall|k: int| 0 <= k < a.len() ==> crate::projection::listed(b, #[trigger] a[k] as int),
    ensures
        a.len() <= b.len(),
    decreases a.len(),
{
    if a.len() > 0 {
        let x = a.last();
        assert(crate::projection::listed(b, a[a.len() - 1] as int));
        let p = choose|p: int| 0 <= p < b.len() && #[trigger] b[p] == x as int;
        let rest = a.drop_last();
        let others = b.remove(p);
        assert forall|k: int| 0 <= k < rest.len() implies crate::projection::listed(
            others,
            #[trigger] rest[k] as int,
        ) by {
            assert(rest[k] == a[k]);
            assert(crate::projection::listed(b, a[k] as int));
            let q = choose|q: int| 0 <= q < b.len() && #[trigger] b[q] == a[k] as int;
            assert(a[k] != a[a.len() - 1]);
            if q < p {
                assert(others[q] == b[q]);
            } else {
                assert(others[q - 1] == b[q]);
            }
        }
        assert forall|k1: int, k2: int|
            0 <= k1 < rest.len() && 0 <= k2 < rest.len() && k1 != k2 implies #[trigger] rest[k1]
            != #[trigger] rest[k2] by {
            assert(rest[k1] == a[k1] && rest[k2] == a[k2]);
        }
        lemma_distinct_rows_count(rest, others);
    }
}

} // verus!
