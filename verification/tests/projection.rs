use dtop::order::{compare_by_field, compare_containers};
use dtop::projection::{keys_in_order, shown, visible_order};
use dtop::time::Timestamp;
use dtop::types::{
    Container, ContainerState, ContainerStats, SortDirection, SortField, SortState,
};

fn container(host: &str, id: &str, name: &str, state: ContainerState) -> Container {
    Container {
        id: id.to_string(),
        name: name.to_string(),
        state,
        health: None,
        created: None,
        stats: ContainerStats::default(),
        host_id: host.to_string(),
        dozzle_url: None,
    }
}

fn by(field: SortField, direction: SortDirection) -> SortState {
    SortState { field, direction }
}

#[test]
fn filter_by_state_host_and_search() {
    let c = container("server1", "abc123", "nginx", ContainerState::Exited);
    assert!(!shown(&c, false, &None, ""));
    assert!(shown(&c, true, &None, ""));
    assert!(shown(&c, true, &Some("server1".to_string()), ""));
    assert!(!shown(&c, true, &Some("server".to_string()), ""));
    assert!(shown(&c, true, &None, "gin"));
    assert!(shown(&c, true, &None, "c12"));
    assert!(shown(&c, true, &None, "rver"));
    assert!(!shown(&c, true, &None, "redis"));
    let r = container("server1", "abc123", "nginx", ContainerState::Running);
    assert!(shown(&r, false, &None, ""));
    assert!(!shown(&r, false, &Some("other".to_string()), ""));
}

#[test]
fn visible_order_is_filtered_sorted_and_stable() {
    let cs = vec![
        container("b", "1", "x", ContainerState::Running),
        container("a", "2", "z", ContainerState::Running),
        container("a", "3", "y", ContainerState::Exited),
        container("a", "4", "y", ContainerState::Running),
        container("a", "5", "y", ContainerState::Running),
    ];
    let sort = by(SortField::Name, SortDirection::Ascending);
    assert_eq!(visible_order(&cs, false, &None, "", sort), vec![3, 4, 1, 0]);
    assert_eq!(visible_order(&cs, true, &None, "", sort), vec![2, 3, 4, 1, 0]);
    let sort = by(SortField::Name, SortDirection::Descending);
    assert_eq!(visible_order(&cs, true, &None, "", sort), vec![1, 2, 3, 4, 0]);
    assert_eq!(
        visible_order(&cs, true, &Some("b".to_string()), "", sort),
        vec![0]
    );
    assert_eq!(visible_order(&cs, true, &None, "nothing", sort), Vec::<usize>::new());
    assert_eq!(visible_order(&vec![], true, &None, "", sort), Vec::<usize>::new());

    let order = visible_order(&cs, false, &None, "", sort);
    let keys = keys_in_order(&cs, &order);
    let ids: Vec<&str> = keys.iter().map(|k| k.container_id.as_str()).collect();
    assert_eq!(ids, vec!["2", "4", "5", "1"]);
}

#[test]
fn comparing_containers() {
    let mut a = container("h", "1", "a", ContainerState::Running);
    let mut b = container("h", "2", "b", ContainerState::Running);
    a.stats.cpu = 10;
    b.stats.cpu = 20;
    a.stats.memory = 7;
    b.stats.memory = 7;
    a.created = Some(Timestamp { secs: 5, nanos: 0 });
    let asc = SortDirection::Ascending;
    let desc = SortDirection::Descending;
    assert_eq!(compare_by_field(&a, &b, by(SortField::Name, asc)), -1);
    assert_eq!(compare_by_field(&a, &b, by(SortField::Name, desc)), 1);
    assert_eq!(compare_by_field(&a, &b, by(SortField::Cpu, asc)), -1);
    assert_eq!(compare_by_field(&a, &b, by(SortField::Cpu, desc)), 1);
    assert_eq!(compare_by_field(&a, &b, by(SortField::Memory, asc)), 0);
    assert_eq!(compare_by_field(&a, &b, by(SortField::Memory, desc)), 0);
    // a known creation time comes before an unknown one, whatever the direction
    assert_eq!(compare_by_field(&a, &b, by(SortField::Uptime, asc)), -1);
    assert_eq!(compare_by_field(&a, &b, by(SortField::Uptime, desc)), -1);
    assert_eq!(compare_by_field(&b, &a, by(SortField::Uptime, desc)), 1);
    assert_eq!(compare_by_field(&b, &b, by(SortField::Uptime, desc)), 0);
    b.created = Some(Timestamp { secs: 5, nanos: 1 });
    assert_eq!(compare_by_field(&a, &b, by(SortField::Uptime, asc)), -1);
    assert_eq!(compare_by_field(&a, &b, by(SortField::Uptime, desc)), 1);

    // the host decides before anything else
    let z = container("a-host", "3", "zzz", ContainerState::Running);
    assert_eq!(compare_containers(&z, &a, by(SortField::Name, asc)), -1);
    assert_eq!(compare_containers(&z, &a, by(SortField::Name, desc)), -1);
    assert_eq!(compare_containers(&a, &z, by(SortField::Cpu, desc)), 1);
}

#[test]
fn timestamps_compare_by_seconds_then_nanoseconds() {
    let a = Timestamp { secs: 1, nanos: 999_999_999 };
    let b = Timestamp { secs: 2, nanos: 0 };
    assert_eq!(a.compare(&b), -1);
    assert_eq!(b.compare(&a), 1);
    assert_eq!(a.compare(&a), 0);
    assert!(a.is_before(&b));
    assert!(!b.is_before(&a));
    assert!(!a.is_before(&a));
    assert_eq!(Timestamp::from_secs(-5), Timestamp { secs: -5, nanos: 0 });
    assert!(Timestamp { secs: -1, nanos: 5 }.is_before(&Timestamp { secs: 0, nanos: 0 }));
}
