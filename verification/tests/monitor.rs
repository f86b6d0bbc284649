use dtop::monitor::{
    classify, health_from_attributes, health_from_detail, lookup_health, short_id,
    ContainerDetail, ContainerSummary, HealthAttributes, HealthLookup, LifecycleKind, Monitor,
    MonitorAction, MonitoredHost,
};
use dtop::time::Timestamp;
use dtop::types::{AppEvent, ContainerState, ContainerStats, HealthStatus};
use std::collections::HashMap;

fn monitor() -> Monitor {
    Monitor::new(MonitoredHost {
        host_id: "local".to_string(),
        dozzle_url: Some("https://dozzle.example.com".to_string()),
    })
}

fn summary(id: &str, name: &str, state: &str) -> ContainerSummary {
    ContainerSummary {
        id: Some(id.to_string()),
        first_name: Some(name.to_string()),
        state: Some(state.to_string()),
        created: Some(1_700_000_000),
        status: Some("Up 2 hours".to_string()),
    }
}

fn detail(name: &str, status: &str) -> ContainerDetail {
    ContainerDetail {
        name: Some(name.to_string()),
        status: Some(status.to_string()),
        health: None,
        created: Some("2025-10-28T12:34:56.5Z".to_string()),
    }
}

/// Carries out the actions as the surroundings would, counting the streams
/// of statistics per container.
fn carry_out(tasks: &mut HashMap<String, i64>, actions: &[MonitorAction]) -> (usize, usize) {
    let mut spawned = 0;
    let mut cancelled = 0;
    for action in actions {
        match action {
            MonitorAction::SpawnStats(id) => {
                *tasks.entry(id.clone()).or_insert(0) += 1;
                spawned += 1;
            }
            MonitorAction::CancelStats(id) => {
                *tasks.entry(id.clone()).or_insert(0) -= 1;
                cancelled += 1;
            }
            _ => {}
        }
        for (id, n) in tasks.iter() {
            assert!(*n == 0 || *n == 1, "{} streams for {}", n, id);
        }
    }
    (spawned, cancelled)
}

#[test]
fn short_id_keeps_twelve_characters() {
    assert_eq!(short_id("0123456789abcdef0123"), "0123456789ab");
    assert_eq!(short_id("0123456789ab"), "0123456789ab");
    assert_eq!(short_id("short"), "short");
    assert_eq!(short_id(""), "");
    assert_eq!(short_id("ééééééééééééé"), "éééééééééééé");
}

#[test]
fn classify_sorts_the_daemons_events() {
    assert_eq!(classify("start"), LifecycleKind::Start);
    assert_eq!(classify("die"), LifecycleKind::Stop);
    assert_eq!(classify("stop"), LifecycleKind::Stop);
    assert_eq!(classify("health_status"), LifecycleKind::Health);
    assert_eq!(classify("health_status: healthy"), LifecycleKind::Health);
    assert_eq!(classify("health_status: unhealthy"), LifecycleKind::Health);
    assert_eq!(classify("health_status: starting"), LifecycleKind::Other);
    assert_eq!(classify("Start"), LifecycleKind::Other);
    assert_eq!(classify("destroy"), LifecycleKind::Other);
    assert_eq!(classify(""), LifecycleKind::Other);
}

#[test]
fn listing_builds_containers_and_starts_streams_for_running_ones() {
    let mut m = monitor();
    let mut redis = summary("bbbbbbbbbbbbbbbbbbbb", "/redis", "EXITED");
    redis.status = Some("Exited (0) 3 days ago".to_string());
    redis.created = None;
    let mut db = summary("cccccccccccccccccccc", "//db", "running");
    db.status = Some("Up 5 minutes (unhealthy)".to_string());
    let listing = vec![
        summary("aaaaaaaaaaaaaaaaaaaa", "/nginx", "RUNNING"),
        redis,
        db,
    ];
    let actions = m.on_listing(&listing);
    assert_eq!(actions.len(), 3);
    assert!(matches!(&actions[0], MonitorAction::SpawnStats(id) if id == "aaaaaaaaaaaa"));
    assert!(matches!(&actions[1], MonitorAction::SpawnStats(id) if id == "cccccccccccc"));
    match &actions[2] {
        MonitorAction::Emit(AppEvent::InitialContainerList(host, list)) => {
            assert_eq!(host, "local");
            assert_eq!(list.len(), 3);
            assert_eq!(list[0].id, "aaaaaaaaaaaa");
            assert_eq!(list[0].name, "nginx");
            assert_eq!(list[0].state, ContainerState::Running);
            assert_eq!(list[0].health, None);
            assert_eq!(list[0].created, Some(Timestamp { secs: 1_700_000_000, nanos: 0 }));
            assert_eq!(list[0].stats, ContainerStats::default());
            assert_eq!(list[0].host_id, "local");
            assert_eq!(list[0].dozzle_url.as_deref(), Some("https://dozzle.example.com"));
            assert_eq!(list[1].name, "redis");
            assert_eq!(list[1].state, ContainerState::Exited);
            assert_eq!(list[1].created, None);
            assert_eq!(list[2].name, "db");
            assert_eq!(list[2].health, Some(HealthStatus::Unhealthy));
        }
        other => panic!("expected the list, got {:?}", other),
    }
    assert!(m.is_active("aaaaaaaaaaaa"));
    assert!(!m.is_active("bbbbbbbbbbbb"));
    assert!(m.is_active("cccccccccccc"));
}

#[test]
fn listing_of_nothing_emits_nothing() {
    let mut m = monitor();
    let actions = m.on_listing(&vec![]);
    assert!(actions.is_empty());
    assert!(m.active.is_empty());
}

#[test]
fn listing_tolerates_missing_fields_and_dates_out_of_range() {
    let mut m = monitor();
    let bare = ContainerSummary {
        id: None,
        first_name: None,
        state: None,
        created: Some(i64::MAX),
        status: None,
    };
    let actions = m.on_listing(&vec![bare]);
    assert_eq!(actions.len(), 1);
    match &actions[0] {
        MonitorAction::Emit(AppEvent::InitialContainerList(_, list)) => {
            assert_eq!(list[0].id, "");
            assert_eq!(list[0].name, "");
            assert_eq!(list[0].state, ContainerState::Unknown);
            assert_eq!(list[0].health, None);
            assert_eq!(list[0].created, None);
        }
        other => panic!("expected the list, got {:?}", other),
    }
}

#[test]
fn start_is_idempotent_and_stop_cancels_before_it_reports() {
    let mut m = monitor();
    let mut tasks = HashMap::new();
    let full = "0123456789abcdef";

    let actions = m.on_start(full, &Some(detail("/web", "running")));
    assert_eq!(actions.len(), 2);
    match &actions[0] {
        MonitorAction::Emit(AppEvent::ContainerCreated(c)) => {
            assert_eq!(c.id, "0123456789ab");
            assert_eq!(c.name, "web");
            assert_eq!(c.state, ContainerState::Running);
            assert_eq!(c.host_id, "local");
            assert_eq!(c.created, Some(Timestamp { secs: 1761654896, nanos: 500_000_000 }));
        }
        other => panic!("expected an arrival, got {:?}", other),
    }
    assert!(matches!(&actions[1], MonitorAction::SpawnStats(id) if id == "0123456789ab"));
    assert_eq!(carry_out(&mut tasks, &actions), (1, 0));

    // a second start for the same container is a no-op
    let actions = m.on_start(full, &Some(detail("/web", "running")));
    assert!(actions.is_empty());
    assert_eq!(carry_out(&mut tasks, &actions), (0, 0));

    let actions = m.on_stop(full);
    assert_eq!(actions.len(), 2);
    assert!(matches!(&actions[0], MonitorAction::CancelStats(id) if id == "0123456789ab"));
    match &actions[1] {
        MonitorAction::Emit(AppEvent::ContainerDestroyed(key)) => {
            assert_eq!(key.host_id, "local");
            assert_eq!(key.container_id, "0123456789ab");
        }
        other => panic!("expected a departure, got {:?}", other),
    }
    assert_eq!(carry_out(&mut tasks, &actions), (0, 1));

    // a second stop is a no-op, and so is a stop of a stranger
    assert!(m.on_stop(full).is_empty());
    assert!(m.on_stop("ffffffffffffffff").is_empty());
    assert_eq!(tasks["0123456789ab"], 0);
}

#[test]
fn start_without_an_answer_from_the_daemon_does_nothing() {
    let mut m = monitor();
    let actions = m.on_start("0123456789abcdef", &None);
    assert!(actions.is_empty());
    assert!(!m.is_active("0123456789ab"));
}

#[test]
fn one_stream_per_container_across_rapid_starts_and_stops() {
    let mut m = monitor();
    let mut tasks = HashMap::new();
    let mut spawned = 0;
    let mut cancelled = 0;
    let a = "aaaaaaaaaaaaaaaa";
    let b = "bbbbbbbbbbbbbbbb";
    let listing = vec![
        summary(a, "/a", "running"),
        summary(a, "/a-again", "running"),
        summary(b, "/b", "exited"),
    ];
    let steps: Vec<Vec<MonitorAction>> = vec![
        m.on_listing(&listing),
        m.on_start(a, &Some(detail("/a", "running"))),
        m.on_start(b, &Some(detail("/b", "running"))),
        m.on_start(b, &Some(detail("/b", "running"))),
        m.on_stop(a),
        m.on_stop(a),
        m.on_start(a, &Some(detail("/a", "running"))),
        m.on_listing(&listing),
        m.on_stop(b),
        m.on_stop(a),
        m.on_stop(b),
    ];
    for actions in &steps {
        let (s, c) = carry_out(&mut tasks, actions);
        spawned += s;
        cancelled += c;
    }
    assert_eq!(spawned, 3);
    assert_eq!(cancelled, 3);
    assert!(tasks.values().all(|n| *n == 0));
    assert!(m.active.is_empty());
}

#[test]
fn health_comes_from_the_event_or_from_the_daemon() {
    let attributes = HealthAttributes {
        health_status: Some("healthy".to_string()),
        alternative: Some("unhealthy".to_string()),
    };
    assert_eq!(health_from_attributes(&attributes), Some(HealthStatus::Healthy));
    let attributes = HealthAttributes {
        health_status: None,
        alternative: Some("Unhealthy".to_string()),
    };
    assert_eq!(health_from_attributes(&attributes), Some(HealthStatus::Unhealthy));
    assert_eq!(
        lookup_health(&Some(attributes)),
        HealthLookup::Known(Some(HealthStatus::Unhealthy))
    );
    let nothing = HealthAttributes { health_status: None, alternative: None };
    assert_eq!(lookup_health(&Some(nothing)), HealthLookup::Known(None));
    // a first attribute that names no health settles the matter
    let odd = HealthAttributes {
        health_status: Some("none".to_string()),
        alternative: Some("healthy".to_string()),
    };
    assert_eq!(lookup_health(&Some(odd)), HealthLookup::Known(None));
    assert_eq!(lookup_health(&None), HealthLookup::AskDaemon);

    let mut d = detail("/web", "running");
    d.health = Some("STARTING".to_string());
    assert_eq!(health_from_detail(&Some(d)), Some(HealthStatus::Starting));
    assert_eq!(health_from_detail(&Some(detail("/web", "running"))), None);
    assert_eq!(health_from_detail(&None), None);
}

#[test]
fn health_is_reported_only_when_made_out() {
    let m = monitor();
    let actions = m.on_health("0123456789abcdef", Some(HealthStatus::Healthy));
    assert_eq!(actions.len(), 1);
    match &actions[0] {
        MonitorAction::Emit(AppEvent::ContainerHealthChanged(key, status)) => {
            assert_eq!(key.host_id, "local");
            assert_eq!(key.container_id, "0123456789ab");
            assert_eq!(*status, HealthStatus::Healthy);
        }
        other => panic!("expected a health change, got {:?}", other),
    }
    assert!(m.on_health("0123456789abcdef", None).is_empty());
}

#[test]
fn a_failed_event_stream_is_listened_to_again_after_a_second() {
    let m = monitor();
    assert!(matches!(m.on_stream_error(), MonitorAction::Pause(1)));
}

#[test]
fn a_health_event_settles_on_what_it_said_or_on_the_daemons_answer() {
    use_settled(
        HealthLookup::Known(Some(HealthStatus::Healthy)),
        None,
        Some(HealthStatus::Healthy),
    );
    // what the event said stands, whatever the daemon would say
    use_settled(HealthLookup::Known(None), Some(ailing()), None);
    use_settled(
        HealthLookup::Known(Some(HealthStatus::Starting)),
        Some(ailing()),
        Some(HealthStatus::Starting),
    );
    // an event without attributes takes the daemon's answer
    use_settled(HealthLookup::AskDaemon, Some(ailing()), Some(HealthStatus::Unhealthy));
    use_settled(HealthLookup::AskDaemon, Some(detail("/web", "running")), None);
    use_settled(HealthLookup::AskDaemon, None, None);
}

fn ailing() -> ContainerDetail {
    let mut d = detail("/web", "running");
    d.health = Some("unhealthy".to_string());
    d
}

fn use_settled(lookup: HealthLookup, answer: Option<ContainerDetail>, expected: Option<HealthStatus>) {
    assert_eq!(dtop::monitor::settled_health(lookup, &answer), expected);
}

fn created_of_listing(secs: i64) -> Option<Timestamp> {
    let m = monitor();
    let mut s = summary("0123456789ab", "/web", "exited");
    s.created = Some(secs);
    m.container_from_summary(&s).created
}

#[test]
fn creation_times_are_kept_exactly_within_the_calendar() {
    assert_eq!(created_of_listing(0), Some(Timestamp { secs: 0, nanos: 0 }));
    assert_eq!(created_of_listing(-1), Some(Timestamp { secs: -1, nanos: 0 }));
    assert_eq!(
        created_of_listing(dtop::time::LAST_SECOND),
        Some(Timestamp { secs: 8_210_266_876_799, nanos: 0 })
    );
    assert_eq!(created_of_listing(dtop::time::LAST_SECOND + 1), None);
    assert_eq!(
        created_of_listing(dtop::time::FIRST_SECOND),
        Some(Timestamp { secs: -8_334_601_228_800, nanos: 0 })
    );
    assert_eq!(created_of_listing(dtop::time::FIRST_SECOND - 1), None);
    assert_eq!(created_of_listing(i64::MIN), None);
    assert_eq!(created_of_listing(i64::MAX), None);
}

#[test]
fn a_listing_asks_for_one_stream_per_new_running_container_and_one_event() {
    let mut m = monitor();
    let listing = vec![
        summary("aaaaaaaaaaaa", "/a", "running"),
        summary("bbbbbbbbbbbb", "/b", "exited"),
        summary("aaaaaaaaaaaa", "/a", "running"),
        summary("cccccccccccc", "/c", "running"),
    ];
    let actions = m.on_listing(&listing);
    assert_eq!(actions.len(), 3);
    assert!(matches!(&actions[0], MonitorAction::SpawnStats(id) if id == "aaaaaaaaaaaa"));
    assert!(matches!(&actions[1], MonitorAction::SpawnStats(id) if id == "cccccccccccc"));
    assert!(matches!(&actions[2], MonitorAction::Emit(AppEvent::InitialContainerList(_, l)) if l.len() == 4));
    // a second listing starts nothing again
    let actions = m.on_listing(&listing);
    assert_eq!(actions.len(), 1);
    assert!(m.on_listing(&Vec::new()).is_empty());
}
