//! The order of the container list: hosts ascending first, then the active
//! sort field in the active direction, then the order of arrival.

use crate::text::{
    bytes_of, compare_text, lemma_lex_order_antisymmetric, lemma_lex_order_range,
    lemma_lex_order_transitive, lemma_lex_order_zero, text_order,
};
use crate::time::Timestamp;
use crate::types::{Container, SortDirection, SortField, SortState};
use vstd::prelude::*;

verus! {

/// A three-way order as seen in the given direction.
pub open spec fn directed(o: int, direction: SortDirection) -> int {
    match direction {
        SortDirection::Ascending => o,
        SortDirection::Descending => -o,
    }
}

/// Three-way order of two integers.
pub open spec fn int_order(a: int, b: int) -> int {
    if a < b {
        -1
    } else if a > b {
        1
    } else {
        0
    }
}

/// Three-way order of two creation times. A known time comes before an
/// unknown one in either direction.
pub open spec fn created_order(
    a: Option<Timestamp>,
    b: Option<Timestamp>,
    direction: SortDirection,
) -> int {
    match (a, b) {
        (Some(x), Some(y)) => directed(x.order(y), direction),
        (Some(_), None) => -1,
        (None, Some(_)) => 1,
        (None, None) => 0,
    }
}

/// Three-way order of two containers by the active sort field alone.
pub open spec fn field_order(a: Container, b: Container, sort: SortState) -> int {
    match sort.field {
        SortField::Uptime => created_order(a.created, b.created, sort.direction),
        SortField::Name => directed(text_order(a.name@, b.name@), sort.direction),
        SortField::Cpu => directed(
            int_order(a.stats.cpu as int, b.stats.cpu as int),
            sort.direction,
        ),
        SortField::Memory => directed(
            int_order(a.stats.memory as int, b.stats.memory as int),
            sort.direction,
        ),
    }
}

/// Three-way order of two containers by host alone, always ascending.
pub open spec fn host_order(a: Container, b: Container) -> int {
    text_order(a.host_id@, b.host_id@)
}

/// Three-way order of two containers: by host, and within a host by the
/// active sort field.
pub open spec fn container_order(a: Container, b: Container, sort: SortState) -> int {
    if host_order(a, b) != 0 {
        host_order(a, b)
    } else {
        field_order(a, b, sort)
    }
}

/// The container at position `i` of `cs` comes before the one at position
/// `j` in the sorted list: it is smaller, or equal and arrived first.
pub open spec fn precedes(cs: Seq<Container>, i: int, j: int, sort: SortState) -> bool {
    let o = container_order(cs[i], cs[j], sort);
    o < 0 || (o == 0 && i < j)
}

/// The order by the sort field takes one of three values and is negated by
/// swapping its arguments.
pub proof fn lemma_field_order_antisymmetric(a: Container, b: Container, sort: SortState)
    ensures
        -1 <= field_order(a, b, sort) <= 1,
        field_order(b, a, sort) == -field_order(a, b, sort),
{
    lemma_lex_order_range(bytes_of(a.name@), bytes_of(b.name@));
    lemma_lex_order_antisymmetric(bytes_of(a.name@), bytes_of(b.name@));
}

/// The order by the sort field is transitive, and strict as soon as one of
/// the two steps is.
pub proof fn lemma_field_order_transitive(a: Container, b: Container, c: Container, sort: SortState)
    requires
        field_order(a, b, sort) <= 0,
        field_order(b, c, sort) <= 0,
    ensures
        field_order(a, c, sort) <= 0,
        field_order(a, b, sort) < 0 || field_order(b, c, sort) < 0 ==> field_order(a, c, sort)
            < 0,
{
    if sort.field == SortField::Name {
        let x = bytes_of(a.name@);
        let y = bytes_of(b.name@);
        let z = bytes_of(c.name@);
        if sort.direction == SortDirection::Ascending {
            lemma_lex_order_transitive(x, y, z);
        } else {
            lemma_lex_order_antisymmetric(x, y);
            lemma_lex_order_antisymmetric(y, z);
            lemma_lex_order_antisymmetric(x, z);
            lemma_lex_order_transitive(z, y, x);
        }
    }
}

/// The order of containers takes one of three values and is negated by
/// swapping its arguments.
pub proof fn lemma_container_order_antisymmetric(a: Container, b: Container, sort: SortState)
    ensures
        -1 <= container_order(a, b, sort) <= 1,
        container_order(b, a, sort) == -container_order(a, b, sort),
{
    lemma_lex_order_range(bytes_of(a.host_id@), bytes_of(b.host_id@));
    lemma_lex_order_antisymmetric(bytes_of(a.host_id@), bytes_of(b.host_id@));
    lemma_field_order_antisymmetric(a, b, sort);
}

/// The order of containers is transitive, and strict as soon as one of the
/// two steps is.
pub proof fn lemma_container_order_transitive(
    a: Container,
    b: Container,
    c: Container,
    sort: SortState,
)
    requires
        container_order(a, b, sort) <= 0,
        container_order(b, c, sort) <= 0,
    ensures
        container_order(a, c, sort) <= 0,
        container_order(a, b, sort) < 0 || container_order(b, c, sort) < 0 ==> container_order(
            a,
            c,
            sort,
        ) < 0,
{
    let x = bytes_of(a.host_id@);
    let y = bytes_of(b.host_id@);
    let z = bytes_of(c.host_id@);
    lemma_lex_order_transitive(x, y, z);
    if host_order(a, b) == 0 && host_order(b, c) == 0 {
        lemma_lex_order_zero(x, y);
        lemma_lex_order_zero(y, z);
        lemma_lex_order_zero(x, z);
        lemma_field_order_transitive(a, b, c, sort);
    }
}

/// Of two different positions, exactly one precedes the other; no position
/// precedes itself.
pub proof fn lemma_precedes_total(cs: Seq<Container>, i: int, j: int, sort: SortState)
    ensures
        i != j ==> (precedes(cs, i, j, sort) <==> !precedes(cs, j, i, sort)),
        !precedes(cs, i, i, sort),
{
    lemma_container_order_antisymmetric(cs[i], cs[j], sort);
    lemma_container_order_antisymmetric(cs[i], cs[i], sort);
}

/// Precedence is transitive.
pub proof fn lemma_precedes_transitive(cs: Seq<Container>, i: int, j: int, k: int, sort: SortState)
    requires
        precedes(cs, i, j, sort),
        precedes(cs, j, k, sort),
    ensures
        precedes(cs, i, k, sort),
{
    lemma_container_order_transitive(cs[i], cs[j], cs[k], sort);
}

/// A three-way order seen in the given direction.
fn in_direction(o: i8, direction: SortDirection) -> (r: i8)
    requires
        -1 <= o <= 1,
    ensures
        r == directed(o as int, direction),
{
    match direction {
        SortDirection::Ascending => o,
        SortDirection::Descending => -o,
    }
}

/// Compares two unsigned numbers.
fn compare_numbers(a: u32, b: u32) -> (r: i8)
    ensures
        r == int_order(a as int, b as int),
{
    if a < b {
        -1
    } else if a > b {
        1
    } else {
        0
    }
}

/// Compares two containers by the active sort field alone.
pub fn compare_by_field(a: &Container, b: &Container, sort: SortState) -> (r: i8)
    ensures
        r == field_order(*a, *b, sort),
{
    match sort.field {
        SortField::Uptime => match (&a.created, &b.created) {
            (Some(x), Some(y)) => in_direction(x.compare(y), sort.direction),
            (Some(_), None) => -1,
            (None, Some(_)) => 1,
            (None, None) => 0,
        },
        SortField::Name => {
            proof {
                lemma_lex_order_range(bytes_of(a.name@), bytes_of(b.name@));
            }
            in_direction(compare_text(a.name.as_str(), b.name.as_str()), sort.direction)
        },
        SortField::Cpu => in_direction(compare_numbers(a.stats.cpu, b.stats.cpu), sort.direction),
        SortField::Memory => in_direction(
            compare_numbers(a.stats.memory, b.stats.memory),
            sort.direction,
        ),
    }
}

/// Compares two containers: by host, and within a host by the active sort
/// field.
pub fn compare_containers(a: &Container, b: &Container, sort: SortState) -> (r: i8)
    ensures
        r == container_order(*a, *b, sort),
{
    let by_host: i8 = compare_text(a.host_id.as_str(), b.host_id.as_str());
    if by_host != 0 {
        by_host
    } else {
        compare_by_field(a, b, sort)
    }
}

} // verus!
