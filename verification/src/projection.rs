//! The filter and sort pipeline: from the tracked containers to the list
//! that is shown.

use crate::order::{
    compare_containers, lemma_precedes_total, lemma_precedes_transitive, precedes,
};
use crate::text::{contains_text, same_text, text_contains};
use crate::types::{Container, ContainerKey, ContainerState, SortState};
use vstd::prelude::*;

verus! {

/// The text of an optional host filter.
pub open spec fn host_view(host: Option<String>) -> Option<Seq<char>> {
    match host {
        Some(h) => Some(h@),
        None => None,
    }
}

/// Whether a container passes the filter: it is running or all containers
/// are shown; it belongs to the selected host, if one is selected; and the
/// search text occurs in its name, its identifier or its host. An empty
/// search text occurs everywhere.
pub open spec fn is_shown(
    c: Container,
    show_all: bool,
    host: Option<Seq<char>>,
    search: Seq<char>,
) -> bool {
    &&& show_all || c.state == ContainerState::Running
    &&& host matches Some(h) ==> c.host_id@ == h
    &&& text_contains(c.name@, search) || text_contains(c.id@, search) || text_contains(
        c.host_id@,
        search,
    )
}

/// Position `j` occurs in `order`.
pub open spec fn listed(order: Seq<usize>, j: int) -> bool {
    exists|k: int| 0 <= k < order.len() && #[trigger] order[k] == j
}

/// `order` is the shown list of `cs`, as positions in `cs`: it holds
/// exactly the positions of the containers that pass the filter, each
/// before all that it precedes.
pub open spec fn is_visible_order(
    order: Seq<usize>,
    cs: Seq<Container>,
    show_all: bool,
    host: Option<Seq<char>>,
    search: Seq<char>,
    sort: SortState,
) -> bool {
    &&& forall|k: int|
        0 <= k < order.len() ==> (#[trigger] order[k]) < cs.len() && is_shown(
            cs[order[k] as int],
            show_all,
            host,
            search,
        )
    &&& forall|j: int|
        0 <= j < cs.len() && is_shown(#[trigger] cs[j], show_all, host, search) ==> listed(
            order,
            j,
        )
    &&& forall|k1: int, k2: int|
        0 <= k1 < k2 < order.len() ==> precedes(
            cs,
            #[trigger] order[k1] as int,
            #[trigger] order[k2] as int,
            sort,
        )
}

/// `order` holds exactly the positions of the containers of `cs` that pass
/// the filter, each once, in any order.
pub open spec fn is_visible_selection(
    order: Seq<usize>,
    cs: Seq<Container>,
    show_all: bool,
    host: Option<Seq<char>>,
    search: Seq<char>,
) -> bool {
    &&& forall|k: int|
        0 <= k < order.len() ==> (#[trigger] order[k]) < cs.len() && is_shown(
            cs[order[k] as int],
            show_all,
            host,
            search,
        )
    &&& forall|j: int|
        0 <= j < cs.len() && is_shown(#[trigger] cs[j], show_all, host, search) ==> listed(
            order,
            j,
        )
    &&& forall|k1: int, k2: int|
        0 <= k1 < order.len() && 0 <= k2 < order.len() && k1 != k2 ==> #[trigger] order[k1]
            != #[trigger] order[k2]
}

/// `keys` names, position by position, the containers that `order` lists.
pub open spec fn keys_follow(keys: Seq<ContainerKey>, order: Seq<usize>, cs: Seq<Container>) -> bool {
    &&& keys.len() == order.len()
    &&& forall|k: int|
        0 <= k < keys.len() ==> (#[trigger] keys[k])@ == cs[order[k] as int].key_view()
}

/// Whether a container passes the filter.
pub fn shown(c: &Container, show_all: bool, host: &Option<String>, search: &str) -> (r: bool)
    ensures
        r == is_shown(*c, show_all, host_view(*host), search@),
{
    if !show_all && c.state != ContainerState::Running {
        return false;
    }
    let host_ok = match host {
        Some(h) => same_text(c.host_id.as_str(), h.as_str()),
        None => true,
    };
    if !host_ok {
        return false;
    }
    contains_text(c.name.as_str(), search) || contains_text(c.id.as_str(), search)
        || contains_text(c.host_id.as_str(), search)
}

/// Whether the container at position `i` comes before the one at `j`.
fn comes_before(cs: &Vec<Container>, i: usize, j: usize, sort: SortState) -> (r: bool)
    requires
        i < cs@.len(),
        j < cs@.len(),
    ensures
        r == precedes(cs@, i as int, j as int, sort),
{
    let o: i8 = compare_containers(&cs[i], &cs[j], sort);
    o < 0 || (o == 0 && i < j)
}

/// The place in the sorted `order` at which position `i` belongs: after
/// everything that it does not precede.
fn insertion_point(cs: &Vec<Container>, order: &Vec<usize>, i: usize, sort: SortState) -> (p:
    usize)
    requires
        i < cs@.len(),
        forall|k: int| 0 <= k < order@.len() ==> (#[trigger] order@[k]) < cs@.len(),
    ensures
        p <= order@.len(),
        forall|k: int| 0 <= k < p ==> !precedes(cs@, i as int, #[trigger] order@[k] as int, sort),
        p < order@.len() ==> precedes(cs@, i as int, order@[p as int] as int, sort),
{
    let mut p: usize = 0;
    while p < order.len()
        invariant
            p <= order@.len(),
            i < cs@.len(),
            forall|k: int| 0 <= k < order@.len() ==> (#[trigger] order@[k]) < cs@.len(),
            forall|k: int|
                0 <= k < p ==> !precedes(cs@, i as int, #[trigger] order@[k] as int, sort),
        decreases order.len() - p,
    {
        if comes_before(cs, i, order[p], sort) {
            return p;
        }
        p = p + 1;
    }
    p
}

/// Runs the filter and sort pipeline: the positions of the containers that
/// pass the filter, ordered by host, then by the active sort field and
/// direction, then by arrival.
pub fn visible_order(
    cs: &Vec<Container>,
    show_all: bool,
    host: &Option<String>,
    search: &str,
    sort: SortState,
) -> (order: Vec<usize>)
    ensures
        is_visible_order(order@, cs@, show_all, host_view(*host), search@, sort),
{
    let mut order: Vec<usize> = Vec::new();
    let mut i: usize = 0;
    while i < cs.len()
        invariant
            i <= cs@.len(),
            forall|k: int|
                0 <= k < order@.len() ==> (#[trigger] order@[k]) < i && is_shown(
                    cs@[order@[k] as int],
                    show_all,
                    host_view(*host),
                    search@,
                ),
            forall|j: int|
                0 <= j < i && is_shown(#[trigger] cs@[j], show_all, host_view(*host), search@)
                    ==> listed(order@, j),
            forall|k1: int, k2: int|
                0 <= k1 < k2 < order@.len() ==> precedes(
                    cs@,
                    #[trigger] order@[k1] as int,
                    #[trigger] order@[k2] as int,
                    sort,
                ),
        decreases cs.len() - i,
    {
        if shown(&cs[i], show_all, host, search) {
            let p: usize = insertion_point(cs, &order, i, sort);
            let ghost before = order@;
            order.insert(p, i);
            proof {
                let after = order@;
                assert(after.len() == before.len() + 1);
                assert(after[p as int] == i);
                assert forall|k: int| 0 <= k < p implies after[k] == before[k] by {}
                assert forall|k: int| p < k < after.len() implies after[k] == before[k - 1] by {}
                assert forall|k1: int, k2: int| 0 <= k1 < k2 < after.len() implies precedes(
                    cs@,
                    #[trigger] after[k1] as int,
                    #[trigger] after[k2] as int,
                    sort,
                ) by {
                    if k2 == p {
                        assert(after[k1] == before[k1]);
                        lemma_precedes_total(cs@, i as int, before[k1] as int, sort);
                    } else if k1 == p {
                        assert(after[k2] == before[k2 - 1]);
                        if k2 - 1 > p {
                            lemma_precedes_transitive(
                                cs@,
                                i as int,
                                before[p as int] as int,
                                before[k2 - 1] as int,
                                sort,
                            );
                        }
                    } else if k2 < p {
                        assert(after[k1] == before[k1] && after[k2] == before[k2]);
                    } else if k1 < p {
                        assert(after[k1] == before[k1] && after[k2] == before[k2 - 1]);
                    } else {
                        assert(after[k1] == before[k1 - 1] && after[k2] == before[k2 - 1]);
                    }
                }
                assert forall|j: int|
                    0 <= j < i + 1 && is_shown(
                        #[trigger] cs@[j],
                        show_all,
                        host_view(*host),
                        search@,
                    ) implies listed(after, j) by {
                    if j == i {
                        assert(after[p as int] == j);
                    } else {
                        assert(listed(before, j));
                        let k = choose|k: int| 0 <= k < before.len() && #[trigger] before[k] == j;
                        if k < p {
                            assert(after[k] == j);
                        } else {
                            assert(after[k + 1] == before[k]);
                        }
                    }
                }
                assert forall|k: int| 0 <= k < after.len() implies (#[trigger] after[k]) < i + 1
                    && is_shown(cs@[after[k] as int], show_all, host_view(*host), search@) by {
                    if k < p {
                        assert(after[k] == before[k]);
                    } else if k > p {
                        assert(after[k] == before[k - 1]);
                    }
                }
            }
        }
        i = i + 1;
    }
    order
}

/// The keys of the containers that `order` lists, in its order.
pub fn keys_in_order(cs: &Vec<Container>, order: &Vec<usize>) -> (keys: Vec<ContainerKey>)
    requires
        forall|k: int| 0 <= k < order@.len() ==> (#[trigger] order@[k]) < cs@.len(),
    ensures
        keys_follow(keys@, order@, cs@),
{
    let mut keys: Vec<ContainerKey> = Vec::new();
    let mut k: usize = 0;
    while k < order.len()
        invariant
            k <= order@.len(),
            keys@.len() == k,
            forall|m: int| 0 <= m < order@.len() ==> (#[trigger] order@[m]) < cs@.len(),
            forall|m: int| 0 <= m < k ==> (#[trigger] keys@[m])@ == cs@[order@[m] as int].key_view(),
        decreases order.len() - k,
    {
        keys.push(cs[order[k]].key());
        k = k + 1;
    }
    keys
}

/// No position occurs twice in a visible order.
pub proof fn lemma_visible_order_distinct(
    order: Seq<usize>,
    cs: Seq<Container>,
    show_all: bool,
    host: Option<Seq<char>>,
    search: Seq<char>,
    sort: SortState,
)
    requires
        is_visible_order(order, cs, show_all, host, search, sort),
    ensures
        forall|k1: int, k2: int|
            0 <= k1 < order.len() && 0 <= k2 < order.len() && k1 != k2 ==> #[trigger] order[k1]
                != #[trigger] order[k2],
{
    assert forall|k1: int, k2: int|
        0 <= k1 < order.len() && 0 <= k2 < order.len() && k1 != k2 implies #[trigger] order[k1]
        != #[trigger] order[k2] by {
        lemma_precedes_total(cs, order[k1] as int, order[k1] as int, sort);
        if k1 < k2 {
            assert(precedes(cs, order[k1] as int, order[k2] as int, sort));
        } else {
            assert(precedes(cs, order[k2] as int, order[k1] as int, sort));
        }
    }
}

/// A visible order holds exactly the containers that pass the filter, each
/// once.
pub proof fn lemma_visible_order_selects(
    order: Seq<usize>,
    cs: Seq<Container>,
    show_all: bool,
    host: Option<Seq<char>>,
    search: Seq<char>,
    sort: SortState,
)
    requires
        is_visible_order(order, cs, show_all, host, search, sort),
    ensures
        is_visible_selection(order, cs, show_all, host, search),
{
    lemma_visible_order_distinct(order, cs, show_all, host, search, sort);
}

/// Two visible orders of the same containers under the same settings agree
/// on their first `n` positions.
proof fn lemma_visible_orders_agree(
    o1: Seq<usize>,
    o2: Seq<usize>,
    cs: Seq<Container>,
    show_all: bool,
    host: Option<Seq<char>>,
    search: Seq<char>,
    sort: SortState,
    n: int,
)
    requires
        is_visible_order(o1, cs, show_all, host, search, sort),
        is_visible_order(o2, cs, show_all, host, search, sort),
        0 <= n <= o1.len(),
        n <= o2.len(),
    ensures
        forall|m: int| 0 <= m < n ==> o1[m] == o2[m],
    decreases n,
{
    if n > 0 {
        let k = n - 1;
        lemma_visible_orders_agree(o1, o2, cs, show_all, host, search, sort, k);
        lemma_visible_order_distinct(o1, cs, show_all, host, search, sort);
        lemma_visible_order_distinct(o2, cs, show_all, host, search, sort);
        let x = o1[k];
        let y = o2[k];
        if x != y {
            assert(is_shown(cs[x as int], show_all, host, search));
            assert(listed(o2, x as int));
            let q = choose|q: int| 0 <= q < o2.len() && #[trigger] o2[q] == x as int;
            if q < k {
                assert(o1[q] == o2[q]);
                assert(o1[q] == o1[k]);
            }
            assert(q > k);
            assert(precedes(cs, o2[k] as int, o2[q] as int, sort));
            assert(is_shown(cs[y as int], show_all, host, search));
            assert(listed(o1, y as int));
            let r = choose|r: int| 0 <= r < o1.len() && #[trigger] o1[r] == y as int;
            if r < k {
                assert(o1[r] == o2[r]);
                assert(o2[r] == o2[k]);
            }
            assert(r > k);
            assert(precedes(cs, o1[k] as int, o1[r] as int, sort));
            lemma_precedes_total(cs, x as int, y as int, sort);
        }
    }
}

/// The filter and sort pipeline has one result: two visible orders of the
/// same containers under the same settings are the same list.
pub proof fn lemma_visible_order_unique(
    o1: Seq<usize>,
    o2: Seq<usize>,
    cs: Seq<Container>,
    show_all: bool,
    host: Option<Seq<char>>,
    search: Seq<char>,
    sort: SortState,
)
    requires
        is_visible_order(o1, cs, show_all, host, search, sort),
        is_visible_order(o2, cs, show_all, host, search, sort),
    ensures
        o1 == o2,
{
    let n = if o1.len() <= o2.len() {
        o1.len() as int
    } else {
        o2.len() as int
    };
    lemma_visible_orders_agree(o1, o2, cs, show_all, host, search, sort, n);
    lemma_visible_order_distinct(o1, cs, show_all, host, search, sort);
    lemma_visible_order_distinct(o2, cs, show_all, host, search, sort);
    if o1.len() < o2.len() {
        let y = o2[n];
        assert(is_shown(cs[y as int], show_all, host, search));
        assert(listed(o1, y as int));
        let r = choose|r: int| 0 <= r < o1.len() && #[trigger] o1[r] == y as int;
        assert(o1[r] == o2[r]);
        assert(o2[r] == o2[n]);
    } else if o2.len() < o1.len() {
        let x = o1[n];
        assert(is_shown(cs[x as int], show_all, host, search));
        assert(listed(o2, x as int));
        let q = choose|q: int| 0 <= q < o2.len() && #[trigger] o2[q] == x as int;
        assert(o1[q] == o2[q]);
        assert(o1[q] == o1[n]);
    }
    assert(o1 =~= o2);
}

/// In a visible order hosts never descend, and within one host the active
/// sort field never descends in the active direction; containers that are
/// equal in both stand in the order in which they arrived.
pub proof fn lemma_visible_order_sorted(
    order: Seq<usize>,
    cs: Seq<Container>,
    show_all: bool,
    host: Option<Seq<char>>,
    search: Seq<char>,
    sort: SortState,
    k1: int,
    k2: int,
)
    requires
        is_visible_order(order, cs, show_all, host, search, sort),
        0 <= k1 < k2 < order.len(),
    ensures
        crate::order::host_order(cs[order[k1] as int], cs[order[k2] as int]) <= 0,
        cs[order[k1] as int].host_id@ == cs[order[k2] as int].host_id@
            ==> crate::order::field_order(cs[order[k1] as int], cs[order[k2] as int], sort) <= 0,
        crate::order::container_order(cs[order[k1] as int], cs[order[k2] as int], sort) == 0
            ==> order[k1] < order[k2],
{
    assert(precedes(cs, order[k1] as int, order[k2] as int, sort));
    crate::text::lemma_lex_order_zero(
        crate::text::bytes_of(cs[order[k1] as int].host_id@),
        crate::text::bytes_of(cs[order[k2] as int].host_id@),
    );
}

} // verus!
