use dtop::executor::{announce, call_for, report, DaemonCall};
use dtop::types::{AppEvent, ContainerAction, ContainerKey};

fn key() -> ContainerKey {
    ContainerKey::new("local".to_string(), "abc".to_string())
}

#[test]
fn calls_for_actions() {
    assert_eq!(call_for(ContainerAction::Start), DaemonCall::Start);
    assert_eq!(call_for(ContainerAction::Stop), DaemonCall::Stop { grace_secs: 10 });
    assert_eq!(call_for(ContainerAction::Restart), DaemonCall::Restart { grace_secs: 10 });
    assert_eq!(
        call_for(ContainerAction::Remove),
        DaemonCall::Remove { force: true, volumes: false }
    );
}

#[test]
fn an_action_is_announced_then_reported() {
    match announce(key(), ContainerAction::Stop) {
        AppEvent::ActionInProgress(k, a) => {
            assert_eq!(k, key());
            assert_eq!(a, ContainerAction::Stop);
        }
        other => panic!("unexpected {:?}", other),
    }
    match report(key(), ContainerAction::Stop, Ok(())) {
        AppEvent::ActionSuccess(k, a) => {
            assert_eq!(k, key());
            assert_eq!(a, ContainerAction::Stop);
        }
        other => panic!("unexpected {:?}", other),
    }
}

#[test]
fn a_failure_names_the_action() {
    let cases = [
        (ContainerAction::Start, "Failed to start container: boom"),
        (ContainerAction::Stop, "Failed to stop container: boom"),
        (ContainerAction::Restart, "Failed to restart container: boom"),
        (ContainerAction::Remove, "Failed to remove container: boom"),
    ];
    for (action, expected) in cases {
        match report(key(), action, Err("boom".to_string())) {
            AppEvent::ActionError(k, a, message) => {
                assert_eq!(k, key());
                assert_eq!(a, action);
                assert_eq!(message, expected);
            }
            other => panic!("unexpected {:?}", other),
        }
    }
}
