use dtop::types::{
    ContainerAction, ContainerKey, ContainerState, ContainerStats, HealthStatus, SortDirection,
    SortField, SortState,
};
use std::str::FromStr;

#[test]
fn container_state_is_read_from_any_case() {
    assert_eq!(ContainerState::from_text("running"), ContainerState::Running);
    assert_eq!(ContainerState::from_text("RUNNING"), ContainerState::Running);
    assert_eq!(ContainerState::from_text("Paused"), ContainerState::Paused);
    assert_eq!(ContainerState::from_text("RESTARTING"), ContainerState::Restarting);
    assert_eq!(ContainerState::from_text("Removing"), ContainerState::Removing);
    assert_eq!(ContainerState::from_text("EXITED"), ContainerState::Exited);
    assert_eq!(ContainerState::from_text("Dead"), ContainerState::Dead);
    assert_eq!(ContainerState::from_text("CREATED"), ContainerState::Created);
    assert_eq!(ContainerState::from_text("EMPTY"), ContainerState::Unknown);
    assert_eq!(ContainerState::from_text(""), ContainerState::Unknown);
    assert_eq!(ContainerState::from_str("Exited"), Ok(ContainerState::Exited));
    assert_eq!("nonsense".parse::<ContainerState>(), Ok(ContainerState::Unknown));
}

#[test]
fn container_state_takes_the_first_word_that_occurs() {
    // the words are looked for in the order of the states
    assert_eq!(ContainerState::from_text("exited, was running"), ContainerState::Running);
    assert_eq!(ContainerState::from_text("dead or paused"), ContainerState::Paused);
    assert_eq!(ContainerState::from_text("state=Created(7)"), ContainerState::Created);
}

#[test]
fn health_is_read_from_a_status_line() {
    assert_eq!(HealthStatus::from_text("Up 2 hours (healthy)"), Some(HealthStatus::Healthy));
    assert_eq!(HealthStatus::from_text("Up 2 hours (unhealthy)"), Some(HealthStatus::Unhealthy));
    assert_eq!(
        HealthStatus::from_text("Up 3 seconds (health: starting)"),
        Some(HealthStatus::Starting)
    );
    assert_eq!(HealthStatus::from_text("HEALTHY"), Some(HealthStatus::Healthy));
    assert_eq!(HealthStatus::from_text("UnHealthy"), Some(HealthStatus::Unhealthy));
    assert_eq!(HealthStatus::from_text("Up 2 hours"), None);
    assert_eq!(HealthStatus::from_text(""), None);
    assert_eq!(HealthStatus::from_str("healthy"), Ok(HealthStatus::Healthy));
    assert_eq!(HealthStatus::from_str("none"), Err(()));
}

#[test]
fn actions_offered_per_state() {
    assert_eq!(
        ContainerAction::available_for_state(&ContainerState::Running),
        vec![ContainerAction::Stop, ContainerAction::Restart, ContainerAction::Remove]
    );
    assert_eq!(
        ContainerAction::available_for_state(&ContainerState::Paused),
        vec![ContainerAction::Stop, ContainerAction::Remove]
    );
    for state in [ContainerState::Exited, ContainerState::Created, ContainerState::Dead] {
        assert_eq!(ContainerAction::available_for_state(&state), vec![ContainerAction::Start, ContainerAction::Remove]);
    }
    for state in [
        ContainerState::Restarting,
        ContainerState::Removing,
        ContainerState::Unknown,
    ] {
        assert!(ContainerAction::available_for_state(&state).is_empty());
    }
}

#[test]
fn action_names() {
    assert_eq!(ContainerAction::Start.display_name(), "Start");
    assert_eq!(ContainerAction::Stop.display_name(), "Stop");
    assert_eq!(ContainerAction::Restart.display_name(), "Restart");
    assert_eq!(ContainerAction::Remove.display_name(), "Remove");
}

#[test]
fn sort_direction_toggles_and_shows() {
    assert_eq!(SortDirection::Ascending.toggle(), SortDirection::Descending);
    assert_eq!(SortDirection::Descending.toggle(), SortDirection::Ascending);
    assert_eq!(SortDirection::Ascending.symbol(), "▲");
    assert_eq!(SortDirection::Descending.symbol(), "▼");
}

#[test]
fn sort_fields_cycle_and_have_default_directions() {
    assert_eq!(SortField::Uptime.next(), SortField::Name);
    assert_eq!(SortField::Name.next(), SortField::Cpu);
    assert_eq!(SortField::Cpu.next(), SortField::Memory);
    assert_eq!(SortField::Memory.next(), SortField::Uptime);
    assert_eq!(SortField::Name.default_direction(), SortDirection::Ascending);
    assert_eq!(SortField::Uptime.default_direction(), SortDirection::Descending);
    assert_eq!(SortField::Cpu.default_direction(), SortDirection::Descending);
    assert_eq!(SortField::Memory.default_direction(), SortDirection::Descending);
    assert_eq!(
        SortState::new(SortField::Name),
        SortState { field: SortField::Name, direction: SortDirection::Ascending }
    );
    assert_eq!(SortState::default(), SortState::new(SortField::Uptime));
}

#[test]
fn keys_compare_by_host_and_identifier() {
    let a = ContainerKey::new("local".to_string(), "abc".to_string());
    assert_eq!(a.host_id, "local");
    assert_eq!(a.container_id, "abc");
    let b = ContainerKey::new("local".to_string(), "abc".to_string());
    let c = ContainerKey::new("remote".to_string(), "abc".to_string());
    let d = ContainerKey::new("local".to_string(), "abd".to_string());
    assert_eq!(a, b);
    assert!(a.same_as(&b));
    assert_ne!(a, c);
    assert_ne!(a, d);
    assert!(!a.same_as(&c));
    assert_eq!(a.clone(), a);
}

#[test]
fn stats_start_at_zero() {
    let s = ContainerStats::default();
    assert_eq!(s.cpu, 0);
    assert_eq!(s.memory, 0);
    assert_eq!(s.network_tx_bytes_per_sec, 0);
    assert_eq!(s.network_rx_bytes_per_sec, 0);
}
