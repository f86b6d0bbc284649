use dtop::app_state::{AppState, Effect, Outcome};
use dtop::time::Timestamp;
use dtop::types::{
    AppEvent, Container, ContainerAction, ContainerKey, ContainerState, ContainerStats,
    HealthStatus, LogEntry, SearchKey, SortDirection, SortField, ViewState,
};

fn container(host: &str, id: &str, name: &str, state: ContainerState) -> Container {
    Container {
        id: id.to_string(),
        name: name.to_string(),
        state,
        health: None,
        created: None,
        stats: ContainerStats::default(),
        host_id: host.to_string(),
        dozzle_url: None,
    }
}

fn running(host: &str, id: &str, name: &str) -> Container {
    container(host, id, name, ContainerState::Running)
}

fn key(host: &str, id: &str) -> ContainerKey {
    ContainerKey::new(host.to_string(), id.to_string())
}

fn state() -> AppState {
    AppState::new(vec!["local".to_string()], false)
}

fn names(s: &AppState) -> Vec<String> {
    s.order.iter().map(|&i| s.containers[i].name.clone()).collect()
}

fn ids(s: &AppState) -> Vec<String> {
    s.sorted_container_keys
        .iter()
        .map(|k| format!("{}/{}", k.host_id, k.container_id))
        .collect()
}

fn redraws(out: &Outcome) -> bool {
    out.redraw
}

/// The invariants that every state must meet, checked on a concrete state.
fn check(s: &AppState) {
    // the key list follows the positions
    assert_eq!(s.order.len(), s.sorted_container_keys.len());
    for (k, &i) in s.order.iter().enumerate() {
        assert_eq!(s.sorted_container_keys[k].host_id, s.containers[i].host_id);
        assert_eq!(s.sorted_container_keys[k].container_id, s.containers[i].id);
    }
    // no duplicates
    for a in 0..s.order.len() {
        for b in 0..a {
            assert_ne!(s.order[a], s.order[b]);
        }
    }
    // exactly the containers that pass the filter
    let search = s.search_input.value.as_str();
    for (i, c) in s.containers.iter().enumerate() {
        let shown = (s.show_all_containers || c.state == ContainerState::Running)
            && s.host_filter.as_ref().map_or(true, |h| *h == c.host_id)
            && (c.name.contains(search) || c.id.contains(search) || c.host_id.contains(search));
        assert_eq!(s.order.contains(&i), shown, "container {}", c.name);
    }
    // the selection
    match s.selected {
        Some(sel) => assert!(sel < s.order.len()),
        None => assert!(s.order.is_empty()),
    }
    // the log goes with the log view
    assert_eq!(matches!(s.view_state, ViewState::LogView(_)), s.log.is_some());
}

#[test]
fn new_state_is_an_empty_container_list() {
    let s = state();
    check(&s);
    assert!(s.containers.is_empty());
    assert!(s.sorted_container_keys.is_empty());
    assert_eq!(s.selected, None);
    assert!(matches!(s.view_state, ViewState::ContainerList));
    assert!(!s.should_quit);
    assert!(!s.show_all_containers);
    assert_eq!(s.sort_state.field, SortField::Uptime);
    assert_eq!(s.sort_state.direction, SortDirection::Descending);
}

#[test]
fn example_scenario_running_only_then_all() {
    let mut s = state();
    let mut nginx = running("local", "abc123456789", "nginx");
    nginx.created = Some(Timestamp { secs: 1_700_000_000, nanos: 0 });
    let redis = container("local", "def987654321", "redis", ContainerState::Exited);
    let out = s.handle_event(AppEvent::InitialContainerList(
        "local".to_string(),
        vec![nginx, redis],
    ));
    assert!(redraws(&out));
    check(&s);
    assert_eq!(names(&s), vec!["nginx"]);
    assert_eq!(s.containers.len(), 2);
    assert_eq!(s.selected, Some(0));

    let out = s.handle_event(AppEvent::ToggleShowAll);
    assert!(redraws(&out));
    check(&s);
    assert_eq!(names(&s), vec!["nginx", "redis"]);
    // redis has no creation time: it sorts after nginx and has no uptime to show
    assert_eq!(s.containers[s.order[1]].created, None);
    assert_eq!(s.containers[s.order[1]].state, ContainerState::Exited);
}

#[test]
fn created_and_destroyed_keep_the_list_in_step() {
    let mut s = state();
    let events = vec![
        AppEvent::ContainerCreated(running("local", "a", "alpha")),
        AppEvent::ContainerCreated(container("local", "b", "beta", ContainerState::Exited)),
        AppEvent::ContainerCreated(running("remote", "a", "gamma")),
        AppEvent::ContainerDestroyed(key("local", "a")),
        AppEvent::ContainerCreated(running("local", "c", "delta")),
        AppEvent::ContainerDestroyed(key("local", "zzz")),
        AppEvent::ContainerCreated(running("local", "a", "alpha2")),
        AppEvent::ContainerDestroyed(key("remote", "a")),
        AppEvent::ContainerDestroyed(key("local", "c")),
    ];
    for event in events {
        let out = s.handle_event(event);
        assert!(redraws(&out));
        check(&s);
    }
    assert_eq!(ids(&s), vec!["local/a"]);
    assert_eq!(names(&s), vec!["alpha2"]);
    assert_eq!(s.containers.len(), 2);
}

#[test]
fn duplicate_created_replaces_and_does_not_duplicate() {
    let mut s = state();
    s.handle_event(AppEvent::ContainerCreated(running("local", "a", "alpha")));
    s.handle_event(AppEvent::ContainerCreated(running("local", "b", "beta")));
    let before = ids(&s);
    s.handle_event(AppEvent::ContainerCreated(running("local", "a", "alpha")));
    check(&s);
    assert_eq!(s.containers.len(), 2);
    assert_eq!(ids(&s), before);
    // the later arrival takes the place of the earlier one
    s.handle_event(AppEvent::ContainerCreated(running("local", "a", "renamed")));
    check(&s);
    assert_eq!(s.containers.len(), 2);
    assert_eq!(s.containers[0].name, "renamed");
}

#[test]
fn destroyed_for_an_untracked_key_changes_nothing() {
    let mut s = state();
    s.handle_event(AppEvent::ContainerCreated(running("local", "a", "alpha")));
    let out = s.handle_event(AppEvent::ContainerDestroyed(key("local", "nope")));
    assert!(redraws(&out));
    check(&s);
    assert_eq!(ids(&s), vec!["local/a"]);
    assert_eq!(s.selected, Some(0));
    // the same id on another host is another container
    s.handle_event(AppEvent::ContainerDestroyed(key("other", "a")));
    check(&s);
    assert_eq!(ids(&s), vec!["local/a"]);
}

#[test]
fn updates_for_untracked_keys_are_ignored() {
    let mut s = state();
    s.handle_event(AppEvent::ContainerCreated(running("local", "a", "alpha")));
    let out = s.handle_event(AppEvent::ContainerStateChanged(
        key("local", "x"),
        ContainerState::Exited,
    ));
    assert!(!redraws(&out));
    let out = s.handle_event(AppEvent::ContainerStat(
        key("local", "x"),
        ContainerStats { cpu: 1, memory: 2, network_tx_bytes_per_sec: 3, network_rx_bytes_per_sec: 4 },
    ));
    assert!(!redraws(&out));
    let out = s.handle_event(AppEvent::ContainerHealthChanged(
        key("local", "x"),
        HealthStatus::Healthy,
    ));
    assert!(redraws(&out));
    check(&s);
    assert_eq!(s.containers.len(), 1);
    assert_eq!(s.containers[0].state, ContainerState::Running);
    assert_eq!(s.containers[0].health, None);
    assert_eq!(s.containers[0].stats, ContainerStats::default());
}

#[test]
fn stat_updates_are_kept_but_not_drawn() {
    let mut s = state();
    s.handle_event(AppEvent::ContainerCreated(running("local", "a", "alpha")));
    let stats = ContainerStats {
        cpu: 2550,
        memory: 4500,
        network_tx_bytes_per_sec: 1024,
        network_rx_bytes_per_sec: 2048,
    };
    let out = s.handle_event(AppEvent::ContainerStat(key("local", "a"), stats));
    assert!(!redraws(&out));
    assert!(out.effect.is_none());
    check(&s);
    assert_eq!(s.containers[0].stats, stats);
}

#[test]
fn state_change_to_exited_hides_the_container() {
    let mut s = state();
    s.handle_event(AppEvent::ContainerCreated(running("local", "a", "alpha")));
    s.handle_event(AppEvent::ContainerCreated(running("local", "b", "beta")));
    s.handle_event(AppEvent::SelectNext);
    assert_eq!(s.selected, Some(1));
    let out = s.handle_event(AppEvent::ContainerStateChanged(
        key("local", "b"),
        ContainerState::Exited,
    ));
    assert!(redraws(&out));
    check(&s);
    assert_eq!(ids(&s), vec!["local/a"]);
    assert_eq!(s.selected, Some(0));
    assert_eq!(s.containers.len(), 2);
}

#[test]
fn health_change_is_kept_and_drawn() {
    let mut s = state();
    s.handle_event(AppEvent::ContainerCreated(running("local", "a", "alpha")));
    let out = s.handle_event(AppEvent::ContainerHealthChanged(
        key("local", "a"),
        HealthStatus::Unhealthy,
    ));
    assert!(redraws(&out));
    assert_eq!(s.containers[0].health, Some(HealthStatus::Unhealthy));
    check(&s);
}

#[test]
fn initial_list_is_tracked_under_the_reporting_host() {
    let mut s = state();
    let stray = running("somewhere-else", "a", "alpha");
    s.handle_event(AppEvent::InitialContainerList("local".to_string(), vec![stray]));
    check(&s);
    assert_eq!(s.containers[0].host_id, "local");
    assert_eq!(ids(&s), vec!["local/a"]);
    // an empty list changes nothing but is drawn
    let out = s.handle_event(AppEvent::InitialContainerList("local".to_string(), vec![]));
    assert!(redraws(&out));
    assert_eq!(s.containers.len(), 1);
}

#[test]
fn hosts_come_first_whatever_the_sort_field() {
    let mut s = state();
    let mut a = running("beta-host", "1", "zz");
    a.stats.cpu = 9000;
    let mut b = running("alpha-host", "2", "mm");
    b.stats.cpu = 100;
    let mut c = running("alpha-host", "3", "aa");
    c.stats.cpu = 5000;
    for x in [a, b, c] {
        s.handle_event(AppEvent::ContainerCreated(x));
    }
    for field in [SortField::Name, SortField::Cpu, SortField::Memory, SortField::Uptime] {
        s.handle_event(AppEvent::SetSortField(field));
        check(&s);
        let hosts: Vec<&str> = s.order.iter().map(|&i| s.containers[i].host_id.as_str()).collect();
        assert_eq!(hosts, vec!["alpha-host", "alpha-host", "beta-host"], "{:?}", field);
        s.handle_event(AppEvent::SetSortField(field));
        check(&s);
        let hosts: Vec<&str> = s.order.iter().map(|&i| s.containers[i].host_id.as_str()).collect();
        assert_eq!(hosts, vec!["alpha-host", "alpha-host", "beta-host"], "{:?} flipped", field);
    }
}

#[test]
fn within_a_host_the_field_and_direction_decide() {
    let mut s = state();
    let mut a = running("h", "1", "bravo");
    a.stats.cpu = 300;
    a.stats.memory = 10;
    let mut b = running("h", "2", "alpha");
    b.stats.cpu = 100;
    b.stats.memory = 30;
    let mut c = running("h", "3", "charlie");
    c.stats.cpu = 200;
    c.stats.memory = 20;
    for x in [a, b, c] {
        s.handle_event(AppEvent::ContainerCreated(x));
    }
    s.handle_event(AppEvent::SetSortField(SortField::Name));
    assert_eq!(s.sort_state.direction, SortDirection::Ascending);
    assert_eq!(names(&s), vec!["alpha", "bravo", "charlie"]);
    s.handle_event(AppEvent::SetSortField(SortField::Name));
    assert_eq!(s.sort_state.direction, SortDirection::Descending);
    assert_eq!(names(&s), vec!["charlie", "bravo", "alpha"]);

    s.handle_event(AppEvent::SetSortField(SortField::Cpu));
    assert_eq!(s.sort_state.direction, SortDirection::Descending);
    assert_eq!(names(&s), vec!["bravo", "charlie", "alpha"]);
    s.handle_event(AppEvent::SetSortField(SortField::Cpu));
    assert_eq!(names(&s), vec!["alpha", "charlie", "bravo"]);

    s.handle_event(AppEvent::SetSortField(SortField::Memory));
    assert_eq!(names(&s), vec!["alpha", "charlie", "bravo"]);
    s.handle_event(AppEvent::SetSortField(SortField::Memory));
    assert_eq!(names(&s), vec!["bravo", "charlie", "alpha"]);
}

#[test]
fn missing_creation_times_sort_last_in_both_directions() {
    let mut s = state();
    let mut old = running("h", "1", "old");
    old.created = Some(Timestamp { secs: 100, nanos: 0 });
    let unknown = running("h", "2", "unknown");
    let mut new = running("h", "3", "new");
    new.created = Some(Timestamp { secs: 200, nanos: 0 });
    let mut newer = running("h", "4", "newer");
    newer.created = Some(Timestamp { secs: 200, nanos: 1 });
    for x in [old, unknown, new, newer] {
        s.handle_event(AppEvent::ContainerCreated(x));
    }
    // the default: uptime, newest first
    assert_eq!(names(&s), vec!["newer", "new", "old", "unknown"]);
    s.handle_event(AppEvent::SetSortField(SortField::Uptime));
    assert_eq!(s.sort_state.direction, SortDirection::Ascending);
    assert_eq!(names(&s), vec!["old", "new", "newer", "unknown"]);
}

#[test]
fn equal_containers_keep_their_order_of_arrival() {
    let mut s = state();
    for (id, name) in [("1", "same"), ("2", "same"), ("3", "same"), ("4", "first")] {
        s.handle_event(AppEvent::ContainerCreated(running("h", id, name)));
    }
    s.handle_event(AppEvent::SetSortField(SortField::Name));
    assert_eq!(ids(&s), vec!["h/4", "h/1", "h/2", "h/3"]);
    s.handle_event(AppEvent::SetSortField(SortField::Name));
    assert_eq!(ids(&s), vec!["h/1", "h/2", "h/3", "h/4"]);
    s.handle_event(AppEvent::SetSortField(SortField::Cpu));
    assert_eq!(ids(&s), vec!["h/1", "h/2", "h/3", "h/4"]);
}

#[test]
fn names_are_ordered_by_their_bytes() {
    let mut s = state();
    for (id, name) in [("1", "b"), ("2", "B"), ("3", "a"), ("4", "ab"), ("5", ""), ("6", "é")] {
        s.handle_event(AppEvent::ContainerCreated(running("h", id, name)));
    }
    s.handle_event(AppEvent::SetSortField(SortField::Name));
    let mut expected = vec!["b", "B", "a", "ab", "", "é"];
    expected.sort();
    assert_eq!(names(&s), expected);
    assert_eq!(names(&s), vec!["", "B", "a", "ab", "b", "é"]);
}

#[test]
fn cycle_sort_field_goes_round_with_default_directions() {
    let mut s = state();
    let expect = [
        (SortField::Name, SortDirection::Ascending),
        (SortField::Cpu, SortDirection::Descending),
        (SortField::Memory, SortDirection::Descending),
        (SortField::Uptime, SortDirection::Descending),
    ];
    for (field, direction) in expect {
        let out = s.handle_event(AppEvent::CycleSortField);
        assert!(redraws(&out));
        assert_eq!(s.sort_state.field, field);
        assert_eq!(s.sort_state.direction, direction);
    }
}

#[test]
fn selection_follows_the_list() {
    let mut s = state();
    assert_eq!(s.selected, None);
    s.handle_event(AppEvent::SelectNext);
    assert_eq!(s.selected, None);
    s.handle_event(AppEvent::ContainerCreated(running("h", "1", "a")));
    assert_eq!(s.selected, Some(0));
    s.handle_event(AppEvent::ContainerCreated(running("h", "2", "b")));
    s.handle_event(AppEvent::ContainerCreated(running("h", "3", "c")));
    assert_eq!(s.selected, Some(0));
    s.handle_event(AppEvent::SelectPrevious);
    assert_eq!(s.selected, Some(0));
    s.handle_event(AppEvent::SelectNext);
    s.handle_event(AppEvent::SelectNext);
    assert_eq!(s.selected, Some(2));
    s.handle_event(AppEvent::SelectNext);
    assert_eq!(s.selected, Some(2));
    check(&s);
    // the last row goes: the selection moves to the new last row
    s.handle_event(AppEvent::ContainerDestroyed(key("h", "3")));
    check(&s);
    assert_eq!(s.selected, Some(1));
    s.handle_event(AppEvent::ContainerDestroyed(key("h", "1")));
    check(&s);
    assert_eq!(s.selected, Some(0));
    s.handle_event(AppEvent::ContainerDestroyed(key("h", "2")));
    check(&s);
    assert_eq!(s.selected, None);
    // a stopped container arrives while only running ones are shown
    s.handle_event(AppEvent::ContainerCreated(container("h", "9", "x", ContainerState::Exited)));
    check(&s);
    assert_eq!(s.selected, None);
    s.handle_event(AppEvent::ToggleShowAll);
    check(&s);
    assert_eq!(s.selected, Some(0));
}

#[test]
fn navigation_is_ignored_outside_the_container_list() {
    let mut s = state();
    s.handle_event(AppEvent::ContainerCreated(running("h", "1", "a")));
    s.handle_event(AppEvent::ContainerCreated(running("h", "2", "b")));
    s.handle_event(AppEvent::ShowActionMenu);
    assert!(matches!(s.view_state, ViewState::ActionMenu(_)));
    for event in [
        AppEvent::SelectNext,
        AppEvent::SelectPrevious,
        AppEvent::CycleSortField,
        AppEvent::SetSortField(SortField::Name),
        AppEvent::ToggleShowAll,
        AppEvent::EnterSearchMode,
        AppEvent::OpenDozzle,
        AppEvent::ShowActionMenu,
        AppEvent::ScrollUp,
        AppEvent::ScrollDown,
        AppEvent::ScrollToTop,
        AppEvent::RequestOlderLogs,
        AppEvent::SelectHost(Some("h".to_string())),
        AppEvent::ExitSearchMode,
        AppEvent::SearchKeyEvent(SearchKey::Char('x')),
    ] {
        let out = s.handle_event(event);
        assert!(!redraws(&out));
        assert!(out.effect.is_none());
        check(&s);
    }
    assert_eq!(s.selected, Some(0));
    assert_eq!(s.sort_state.field, SortField::Uptime);
    assert!(!s.show_all_containers);
}

#[test]
fn quit_resize_and_help() {
    let mut s = state();
    let out = s.handle_event(AppEvent::Resize);
    assert!(redraws(&out));
    let out = s.handle_event(AppEvent::ToggleHelp);
    assert!(redraws(&out));
    assert!(s.show_help);
    // the key that leaves a view closes the help first
    let out = s.handle_event(AppEvent::ExitLogView);
    assert!(redraws(&out));
    assert!(!s.show_help);
    let out = s.handle_event(AppEvent::ExitLogView);
    assert!(!redraws(&out));
    let out = s.handle_event(AppEvent::Quit);
    assert!(!redraws(&out));
    assert!(s.should_quit);
}

#[test]
fn search_filters_on_every_key() {
    let mut s = state();
    s.handle_event(AppEvent::ContainerCreated(running("local", "abc", "nginx")));
    s.handle_event(AppEvent::ContainerCreated(running("local", "def", "postgres")));
    s.handle_event(AppEvent::ContainerCreated(running("server1", "ghi", "redis")));
    s.handle_event(AppEvent::SelectNext);
    s.handle_event(AppEvent::SelectNext);
    assert_eq!(s.selected, Some(2));

    let out = s.handle_event(AppEvent::EnterSearchMode);
    assert!(redraws(&out));
    assert!(matches!(s.view_state, ViewState::SearchMode));
    for c in "gres".chars() {
        let out = s.handle_event(AppEvent::SearchKeyEvent(SearchKey::Char(c)));
        assert!(redraws(&out));
        check(&s);
    }
    assert_eq!(s.search_input.value, "gres");
    assert_eq!(names(&s), vec!["postgres"]);
    assert_eq!(s.selected, Some(0));

    // the identifier and the host are searched too
    for _ in 0..4 {
        s.handle_event(AppEvent::SearchKeyEvent(SearchKey::Backspace));
    }
    assert_eq!(names(&s).len(), 3);
    for c in "ghi".chars() {
        s.handle_event(AppEvent::SearchKeyEvent(SearchKey::Char(c)));
    }
    assert_eq!(names(&s), vec!["redis"]);
    for _ in 0..3 {
        s.handle_event(AppEvent::SearchKeyEvent(SearchKey::Backspace));
    }
    for c in "server".chars() {
        s.handle_event(AppEvent::SearchKeyEvent(SearchKey::Char(c)));
    }
    assert_eq!(names(&s), vec!["redis"]);
    s.handle_event(AppEvent::SearchKeyEvent(SearchKey::Char('X')));
    check(&s);
    assert!(names(&s).is_empty());
    assert_eq!(s.selected, None);

    // Enter keeps the filter, Escape clears it
    s.handle_event(AppEvent::SearchKeyEvent(SearchKey::Backspace));
    let out = s.handle_event(AppEvent::SearchKeyEvent(SearchKey::Enter));
    assert!(!redraws(&out));
    let out = s.handle_event(AppEvent::EnterPressed);
    assert!(redraws(&out));
    assert!(out.effect.is_none());
    assert!(matches!(s.view_state, ViewState::ContainerList));
    assert_eq!(names(&s), vec!["redis"]);
    check(&s);

    s.handle_event(AppEvent::EnterSearchMode);
    check(&s);
    assert_eq!(s.search_input.value, "");
    assert_eq!(names(&s).len(), 3);
    s.handle_event(AppEvent::SearchKeyEvent(SearchKey::Char('n')));
    assert_eq!(names(&s), vec!["nginx"]);
    let out = s.handle_event(AppEvent::SearchKeyEvent(SearchKey::Esc));
    assert!(redraws(&out));
    assert!(matches!(s.view_state, ViewState::ContainerList));
    assert_eq!(s.search_input.value, "");
    assert_eq!(names(&s).len(), 3);
    check(&s);
}

#[test]
fn search_is_a_plain_substring_match() {
    let mut s = state();
    s.handle_event(AppEvent::ContainerCreated(running("local", "abc", "Nginx")));
    s.handle_event(AppEvent::EnterSearchMode);
    s.handle_event(AppEvent::SearchKeyEvent(SearchKey::Char('n')));
    assert_eq!(names(&s), vec!["Nginx"]);
    // "ng" does not occur in "Nginx": case matters
    s.handle_event(AppEvent::SearchKeyEvent(SearchKey::Char('g')));
    assert!(names(&s).is_empty());
    s.handle_event(AppEvent::SearchKeyEvent(SearchKey::Home));
    s.handle_event(AppEvent::SearchKeyEvent(SearchKey::Delete));
    assert_eq!(s.search_input.value, "g");
    assert_eq!(names(&s), vec!["Nginx"]);
    s.handle_event(AppEvent::SearchKeyEvent(SearchKey::Char('N')));
    assert_eq!(s.search_input.value, "Ng");
    assert_eq!(s.search_input.cursor, 1);
    assert_eq!(names(&s), vec!["Nginx"]);
    s.handle_event(AppEvent::SearchKeyEvent(SearchKey::End));
    s.handle_event(AppEvent::SearchKeyEvent(SearchKey::Char('X')));
    assert_eq!(s.search_input.value, "NgX");
    assert!(names(&s).is_empty());
    check(&s);
}

#[test]
fn host_filter_shows_one_host_and_selects_the_first_row() {
    let mut s = state();
    s.handle_event(AppEvent::ContainerCreated(running("a", "1", "one")));
    s.handle_event(AppEvent::ContainerCreated(running("b", "2", "two")));
    s.handle_event(AppEvent::ContainerCreated(running("b", "3", "three")));
    s.handle_event(AppEvent::SelectNext);
    s.handle_event(AppEvent::SelectNext);
    let out = s.handle_event(AppEvent::SelectHost(Some("b".to_string())));
    assert!(redraws(&out));
    check(&s);
    assert_eq!(ids(&s), vec!["b/2", "b/3"]);
    assert_eq!(s.selected, Some(0));
    s.handle_event(AppEvent::SelectHost(Some("nobody".to_string())));
    check(&s);
    assert!(ids(&s).is_empty());
    assert_eq!(s.selected, None);
    s.handle_event(AppEvent::SelectHost(None));
    check(&s);
    assert_eq!(ids(&s).len(), 3);
    assert_eq!(s.selected, Some(0));
}

#[test]
fn enter_opens_the_log_of_the_selection_and_starts_one_tail() {
    let mut s = state();
    s.handle_event(AppEvent::ContainerCreated(running("local", "a", "alpha")));
    s.handle_event(AppEvent::ContainerCreated(running("local", "b", "beta")));
    s.handle_event(AppEvent::SetSortField(SortField::Name));
    s.handle_event(AppEvent::SelectNext);
    let out = s.handle_event(AppEvent::EnterPressed);
    assert!(redraws(&out));
    match out.effect {
        Some(Effect::StartLogStream(k)) => assert_eq!(k, key("local", "b")),
        other => panic!("expected a tail to start, got {:?}", other),
    }
    match &s.view_state {
        ViewState::LogView(k) => assert_eq!(*k, key("local", "b")),
        other => panic!("expected the log view, got {:?}", other),
    }
    let log = s.log.as_ref().unwrap();
    assert_eq!(log.key, key("local", "b"));
    assert!(log.entries.is_empty());
    assert!(log.is_at_bottom);
    check(&s);

    // Enter in the log view does nothing
    let out = s.handle_event(AppEvent::EnterPressed);
    assert!(!redraws(&out));
    assert!(out.effect.is_none());

    let out = s.handle_event(AppEvent::ExitLogView);
    assert!(redraws(&out));
    assert!(matches!(out.effect, Some(Effect::StopLogStream)));
    assert!(s.log.is_none());
    assert!(matches!(s.view_state, ViewState::ContainerList));
    check(&s);
}

#[test]
fn enter_without_a_selection_does_nothing() {
    let mut s = state();
    let out = s.handle_event(AppEvent::EnterPressed);
    assert!(!redraws(&out));
    assert!(out.effect.is_none());
    assert!(matches!(s.view_state, ViewState::ContainerList));
}

#[test]
fn at_most_one_tail_runs_across_rapid_reopening() {
    let mut s = state();
    s.handle_event(AppEvent::ContainerCreated(running("local", "a", "alpha")));
    s.handle_event(AppEvent::ContainerCreated(running("local", "b", "beta")));
    let mut live: i64 = 0;
    let mut spawned = 0;
    let mut cancelled = 0;
    let script = [
        AppEvent::EnterPressed,
        AppEvent::EnterPressed,
        AppEvent::ExitLogView,
        AppEvent::ExitLogView,
        AppEvent::SelectNext,
        AppEvent::EnterPressed,
        AppEvent::ContainerDestroyed(ContainerKey::new("local".to_string(), "b".to_string())),
        AppEvent::EnterPressed,
        AppEvent::ShowActionMenu,
        AppEvent::ExitLogView,
        AppEvent::EnterPressed,
        AppEvent::ToggleHelp,
        AppEvent::ExitLogView,
        AppEvent::ExitLogView,
        AppEvent::EnterPressed,
        AppEvent::ExitLogView,
    ];
    for event in script {
        let out = s.handle_event(event);
        match out.effect {
            Some(Effect::StartLogStream(_)) => {
                live += 1;
                spawned += 1;
            }
            Some(Effect::StopLogStream) => {
                live -= 1;
                cancelled += 1;
            }
            _ => {}
        }
        assert!(live == 0 || live == 1);
        assert_eq!(live == 1, s.log.is_some());
        check(&s);
    }
    assert_eq!(spawned, 4);
    assert_eq!(cancelled, 4);
    assert_eq!(live, 0);
}

fn line(secs: i64, text: &str) -> LogEntry {
    LogEntry {
        timestamp: Timestamp { secs, nanos: 0 },
        message: text.to_string(),
    }
}

fn open_log() -> AppState {
    let mut s = state();
    let mut c = running("local", "a", "alpha");
    c.created = Some(Timestamp { secs: 50, nanos: 0 });
    s.handle_event(AppEvent::ContainerCreated(c));
    s.handle_event(AppEvent::EnterPressed);
    s
}

#[test]
fn log_lines_for_the_viewed_container_are_kept_and_others_dropped() {
    let mut s = open_log();
    let out = s.handle_event(AppEvent::LogLine(key("local", "a"), line(100, " one")));
    assert!(redraws(&out));
    let out = s.handle_event(AppEvent::LogLine(key("local", "zzz"), line(101, " stray")));
    assert!(!redraws(&out));
    let out = s.handle_event(AppEvent::LogLine(key("local", "a"), line(102, " two")));
    assert!(redraws(&out));
    let log = s.log.as_ref().unwrap();
    assert_eq!(log.entries.len(), 2);
    assert_eq!(log.entries[1].message, " two");
    assert_eq!(log.oldest, Some(Timestamp { secs: 100, nanos: 0 }));
    assert_eq!(log.newest, Some(Timestamp { secs: 102, nanos: 0 }));
    assert_eq!(log.total_loaded, 2);

    // without a log view every line is stale
    s.handle_event(AppEvent::ExitLogView);
    let out = s.handle_event(AppEvent::LogLine(key("local", "a"), line(103, " late")));
    assert!(!redraws(&out));
    assert!(s.log.is_none());
}

#[test]
fn a_batch_is_prepended_and_the_view_stays_on_its_line() {
    let mut s = open_log();
    s.handle_event(AppEvent::LogLine(key("local", "a"), line(300, " newest")));
    s.handle_event(AppEvent::ScrollDown);
    s.handle_event(AppEvent::ScrollDown);
    assert_eq!(s.log.as_ref().unwrap().scroll_offset, 2);
    let batch = vec![line(100, " first"), line(200, " second")];
    let out = s.handle_event(AppEvent::LogBatchPrepend(key("local", "a"), batch, true));
    assert!(redraws(&out));
    let log = s.log.as_ref().unwrap();
    let texts: Vec<&str> = log.entries.iter().map(|e| e.message.as_str()).collect();
    assert_eq!(texts, vec![" first", " second", " newest"]);
    assert_eq!(log.scroll_offset, 4);
    assert_eq!(log.oldest, Some(Timestamp { secs: 100, nanos: 0 }));
    assert_eq!(log.newest, Some(Timestamp { secs: 300, nanos: 0 }));
    assert!(log.has_more_history);
    assert!(!log.fetching_older);
    assert_eq!(log.total_loaded, 3);

    // a batch for another container is dropped
    let out = s.handle_event(AppEvent::LogBatchPrepend(
        key("local", "other"),
        vec![line(1, " x")],
        false,
    ));
    assert!(!redraws(&out));
    assert_eq!(s.log.as_ref().unwrap().entries.len(), 3);
    assert!(s.log.as_ref().unwrap().has_more_history);
}

#[test]
fn scrolling_near_the_top_asks_for_older_lines_once() {
    let mut s = open_log();
    let batch: Vec<LogEntry> = (0..20).map(|i| line(1000 + i, " l")).collect();
    s.handle_event(AppEvent::LogBatchPrepend(key("local", "a"), batch, true));
    let log = s.log.as_ref().unwrap();
    assert_eq!(log.scroll_offset, 20);

    // far from the top: no request
    for expected in (10..20).rev() {
        let out = s.handle_event(AppEvent::ScrollUp);
        assert!(redraws(&out));
        assert!(out.effect.is_none(), "at offset {}", expected);
        assert_eq!(s.log.as_ref().unwrap().scroll_offset, expected);
    }
    // within ten lines of the top: one request
    let out = s.handle_event(AppEvent::ScrollUp);
    match out.effect {
        Some(Effect::FetchOlderLogs(r)) => {
            assert_eq!(r.key, key("local", "a"));
            assert_eq!(r.before, Timestamp { secs: 1000, nanos: 0 });
            assert_eq!(r.newest, Timestamp { secs: 1019, nanos: 0 });
            assert_eq!(r.container_created, Some(Timestamp { secs: 50, nanos: 0 }));
            assert_eq!(r.batch_size, 1000);
        }
        other => panic!("expected a request, got {:?}", other),
    }
    assert!(s.log.as_ref().unwrap().fetching_older);
    assert!(!s.log.as_ref().unwrap().is_at_bottom);
    // while it is in flight no other request goes out
    for event in [AppEvent::ScrollUp, AppEvent::ScrollToTop, AppEvent::RequestOlderLogs, AppEvent::ScrollPageUp] {
        let out = s.handle_event(event);
        assert!(out.effect.is_none());
    }
    // the answer lifts the guard
    s.handle_event(AppEvent::LogBatchPrepend(key("local", "a"), vec![line(900, " old")], false));
    assert!(!s.log.as_ref().unwrap().fetching_older);
    assert_eq!(s.log.as_ref().unwrap().scroll_offset, 1);
    // the history has ended: no further request
    let out = s.handle_event(AppEvent::ScrollToTop);
    assert!(redraws(&out));
    assert!(out.effect.is_none());
    assert_eq!(s.log.as_ref().unwrap().scroll_offset, 0);
}

#[test]
fn scroll_positions() {
    let mut s = open_log();
    s.last_viewport_height = 21;
    let out = s.handle_event(AppEvent::ScrollUp);
    assert!(!redraws(&out));
    assert!(s.log.as_ref().unwrap().is_at_bottom);
    s.handle_event(AppEvent::ScrollPageDown);
    assert_eq!(s.log.as_ref().unwrap().scroll_offset, 10);
    s.handle_event(AppEvent::ScrollPageDown);
    assert_eq!(s.log.as_ref().unwrap().scroll_offset, 20);
    s.handle_event(AppEvent::ScrollDown);
    assert_eq!(s.log.as_ref().unwrap().scroll_offset, 21);
    s.handle_event(AppEvent::ScrollPageUp);
    assert_eq!(s.log.as_ref().unwrap().scroll_offset, 11);
    assert!(!s.log.as_ref().unwrap().is_at_bottom);
    s.handle_event(AppEvent::ScrollToBottom);
    assert!(s.log.as_ref().unwrap().is_at_bottom);
    s.handle_event(AppEvent::ScrollPageUp);
    s.handle_event(AppEvent::ScrollPageUp);
    assert_eq!(s.log.as_ref().unwrap().scroll_offset, 0);
    s.log.as_mut().unwrap().scroll_offset = usize::MAX;
    s.handle_event(AppEvent::ScrollDown);
    assert_eq!(s.log.as_ref().unwrap().scroll_offset, usize::MAX);
}

#[test]
fn action_menu_runs_the_selected_action() {
    let mut s = state();
    s.handle_event(AppEvent::ContainerCreated(running("local", "a", "alpha")));
    let out = s.handle_event(AppEvent::ShowActionMenu);
    assert!(redraws(&out));
    assert_eq!(s.action_selected, Some(0));
    let out = s.handle_event(AppEvent::SelectActionUp);
    assert!(!redraws(&out));
    let out = s.handle_event(AppEvent::SelectActionDown);
    assert!(redraws(&out));
    assert_eq!(s.action_selected, Some(1));
    s.handle_event(AppEvent::SelectActionDown);
    assert_eq!(s.action_selected, Some(2));
    let out = s.handle_event(AppEvent::SelectActionDown);
    assert!(!redraws(&out));
    assert_eq!(s.action_selected, Some(2));
    s.handle_event(AppEvent::SelectActionUp);
    assert_eq!(s.action_selected, Some(1));

    let out = s.handle_event(AppEvent::ExecuteAction);
    assert!(redraws(&out));
    match out.effect {
        Some(Effect::RunAction(k, action)) => {
            assert_eq!(k, key("local", "a"));
            assert_eq!(action, ContainerAction::Restart);
        }
        other => panic!("expected an action, got {:?}", other),
    }
    assert!(matches!(s.view_state, ViewState::ContainerList));
    assert_eq!(s.action_selected, None);
    // the container's state waits for the daemon's own events
    assert_eq!(s.containers[0].state, ContainerState::Running);
    check(&s);
}

#[test]
fn action_menu_cancel_and_unreachable_hosts() {
    let mut s = state();
    s.handle_event(AppEvent::ContainerCreated(running("elsewhere", "a", "alpha")));
    s.handle_event(AppEvent::ShowActionMenu);
    // the host of the container is not connected
    let out = s.handle_event(AppEvent::ExecuteAction);
    assert!(!redraws(&out));
    assert!(out.effect.is_none());
    assert!(matches!(s.view_state, ViewState::ActionMenu(_)));
    s.handle_event(AppEvent::HostConnected("elsewhere".to_string()));
    s.handle_event(AppEvent::HostConnected("elsewhere".to_string()));
    assert_eq!(s.connected_hosts, vec!["local", "elsewhere"]);
    let out = s.handle_event(AppEvent::ExecuteAction);
    assert!(matches!(out.effect, Some(Effect::RunAction(_, ContainerAction::Stop))));

    s.handle_event(AppEvent::ShowActionMenu);
    let out = s.handle_event(AppEvent::CancelActionMenu);
    assert!(redraws(&out));
    assert!(matches!(s.view_state, ViewState::ContainerList));
    assert_eq!(s.action_selected, None);
    let out = s.handle_event(AppEvent::CancelActionMenu);
    assert!(!redraws(&out));
}

#[test]
fn action_menu_of_a_container_in_transition_is_empty() {
    let mut s = state();
    s.handle_event(AppEvent::ToggleShowAll);
    s.handle_event(AppEvent::ContainerCreated(container(
        "local",
        "a",
        "alpha",
        ContainerState::Restarting,
    )));
    s.handle_event(AppEvent::ShowActionMenu);
    for event in [AppEvent::SelectActionDown, AppEvent::SelectActionUp, AppEvent::ExecuteAction] {
        let out = s.handle_event(event);
        assert!(!redraws(&out));
        assert!(out.effect.is_none());
    }
    // the container goes away while its menu is open
    s.handle_event(AppEvent::ContainerDestroyed(key("local", "a")));
    let out = s.handle_event(AppEvent::ExecuteAction);
    assert!(out.effect.is_none());
    check(&s);
}

#[test]
fn action_results_change_nothing() {
    let mut s = state();
    s.handle_event(AppEvent::ContainerCreated(running("local", "a", "alpha")));
    for event in [
        AppEvent::ActionInProgress(key("local", "a"), ContainerAction::Stop),
        AppEvent::ActionSuccess(key("local", "a"), ContainerAction::Stop),
        AppEvent::ActionError(key("local", "a"), ContainerAction::Stop, "no".to_string()),
    ] {
        let out = s.handle_event(event);
        assert!(!redraws(&out));
        assert!(out.effect.is_none());
    }
    assert_eq!(s.containers[0].state, ContainerState::Running);
}

#[test]
fn open_dozzle_builds_the_address() {
    let mut s = state();
    let mut c = running("local", "abc123456789", "nginx");
    c.dozzle_url = Some("https://dozzle.example.com///".to_string());
    s.handle_event(AppEvent::ContainerCreated(c));
    let out = s.handle_event(AppEvent::OpenDozzle);
    assert!(!redraws(&out));
    match out.effect {
        Some(Effect::OpenUrl(url)) => {
            assert_eq!(url, "https://dozzle.example.com/container/abc123456789")
        }
        other => panic!("expected an address, got {:?}", other),
    }
}

#[test]
fn open_dozzle_needs_a_viewer_and_a_local_session() {
    let mut s = state();
    let out = s.handle_event(AppEvent::OpenDozzle);
    assert!(out.effect.is_none());
    s.handle_event(AppEvent::ContainerCreated(running("local", "a", "plain")));
    let out = s.handle_event(AppEvent::OpenDozzle);
    assert!(out.effect.is_none());

    let mut remote = AppState::new(vec![], true);
    let mut c = running("local", "a", "nginx");
    c.dozzle_url = Some("https://d".to_string());
    remote.handle_event(AppEvent::ContainerCreated(c));
    let out = remote.handle_event(AppEvent::OpenDozzle);
    assert!(out.effect.is_none());
}

#[test]
fn connection_errors_expire_after_ten_seconds() {
    let mut s = state();
    s.clock = 100;
    let out = s.handle_event(AppEvent::ConnectionError("a".to_string(), "down".to_string()));
    assert!(redraws(&out));
    s.clock = 105;
    s.handle_event(AppEvent::ConnectionError("b".to_string(), "gone".to_string()));
    assert_eq!(s.connection_errors.len(), 2);
    // a second error of the same host takes the place of the first
    s.clock = 109;
    s.handle_event(AppEvent::ConnectionError("b".to_string(), "still gone".to_string()));
    assert_eq!(s.connection_errors.len(), 2);
    assert_eq!(s.connection_errors[0].host_id, "a");
    assert_eq!(s.connection_errors[1].message, "still gone");
    assert_eq!(s.connection_errors[1].at, 109);
    // ten seconds after the first, it leaves the display
    s.clock = 110;
    s.handle_event(AppEvent::ConnectionError("c".to_string(), "x".to_string()));
    let hosts: Vec<&str> = s.connection_errors.iter().map(|n| n.host_id.as_str()).collect();
    assert_eq!(hosts, vec!["b", "c"]);
    check(&s);
}

fn with_cpu(cpu: u32) -> ContainerStats {
    ContainerStats { cpu, ..ContainerStats::default() }
}

#[test]
fn the_departure_of_a_stranger_leaves_a_stale_list_as_it_is() {
    let mut s = state();
    s.handle_event(AppEvent::SetSortField(SortField::Cpu));
    s.handle_event(AppEvent::ContainerCreated(running("local", "a", "alpha")));
    s.handle_event(AppEvent::ContainerCreated(running("local", "b", "beta")));
    s.handle_event(AppEvent::ContainerStat(key("local", "a"), with_cpu(5000)));
    s.handle_event(AppEvent::ContainerStat(key("local", "b"), with_cpu(1000)));
    s.handle_event(AppEvent::ToggleHelp);
    s.handle_event(AppEvent::ToggleHelp);
    s.handle_event(AppEvent::CycleSortField);
    s.handle_event(AppEvent::SetSortField(SortField::Cpu));
    assert_eq!(names(&s), vec!["alpha", "beta"]);
    // statistics come and the list goes stale: beta now uses more
    s.handle_event(AppEvent::ContainerStat(key("local", "b"), with_cpu(9000)));
    assert_eq!(names(&s), vec!["alpha", "beta"]);
    s.handle_event(AppEvent::SelectNext);
    assert_eq!(s.selected, Some(1));

    for stranger in [key("local", "zzz"), key("elsewhere", "a"), key("", "")] {
        let out = s.handle_event(AppEvent::ContainerDestroyed(stranger));
        assert!(redraws(&out));
        assert!(out.effect.is_none());
        assert_eq!(names(&s), vec!["alpha", "beta"]);
        assert_eq!(ids(&s), vec!["local/a", "local/b"]);
        assert_eq!(s.order, vec![0, 1]);
        assert_eq!(s.containers.len(), 2);
        assert_eq!(s.selected, Some(1));
        check(&s);
    }

    // the departure of a tracked container runs the pipeline
    s.handle_event(AppEvent::ContainerCreated(running("local", "c", "gamma")));
    assert_eq!(names(&s), vec!["beta", "alpha", "gamma"]);
    s.handle_event(AppEvent::ContainerStat(key("local", "c"), with_cpu(9500)));
    assert_eq!(names(&s), vec!["beta", "alpha", "gamma"]);
    let out = s.handle_event(AppEvent::ContainerDestroyed(key("local", "a")));
    assert!(redraws(&out));
    assert_eq!(names(&s), vec!["gamma", "beta"]);
    // and sent again it changes nothing
    let out = s.handle_event(AppEvent::ContainerDestroyed(key("local", "a")));
    assert!(redraws(&out));
    assert_eq!(names(&s), vec!["gamma", "beta"]);
    check(&s);
}

#[test]
fn the_log_of_a_container_on_a_host_that_is_not_connected_opens_without_a_tail() {
    let mut s = state();
    s.handle_event(AppEvent::ContainerCreated(running("remote", "r", "far")));
    assert_eq!(s.selected, Some(0));
    let out = s.handle_event(AppEvent::EnterPressed);
    assert!(redraws(&out));
    assert!(out.effect.is_none());
    assert!(!s.log_stream_active);
    match &s.view_state {
        ViewState::LogView(k) => assert_eq!(*k, key("remote", "r")),
        other => panic!("expected the log view, got {:?}", other),
    }
    let log = s.log.as_ref().unwrap();
    assert_eq!(log.key, key("remote", "r"));
    assert!(log.entries.is_empty());
    assert_eq!(log.scroll_offset, 0);
    assert!(log.is_at_bottom);
    check(&s);

    // no tail runs, so none is cancelled
    let out = s.handle_event(AppEvent::ExitLogView);
    assert!(redraws(&out));
    assert!(out.effect.is_none());
    assert!(matches!(s.view_state, ViewState::ContainerList));
    assert!(s.log.is_none());

    // once the host is connected the tail is asked for
    s.handle_event(AppEvent::HostConnected("remote".to_string()));
    let out = s.handle_event(AppEvent::EnterPressed);
    assert!(matches!(out.effect, Some(Effect::StartLogStream(k)) if k == key("remote", "r")));
    assert!(s.log_stream_active);
    let out = s.handle_event(AppEvent::ExitLogView);
    assert!(matches!(out.effect, Some(Effect::StopLogStream)));
    assert!(!s.log_stream_active);
    check(&s);
}
