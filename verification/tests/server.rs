use std::time::Duration;

use notify_rust::action::CloseReason;
use notify_rust::hints::Hint;
use notify_rust::server::{
    close_timeout, collect_hints, decide, decide_after_invoke, persistent, server_information, Action,
    NotificationServerConfig, ServerDecision, ServerEvent, ServerState, Session, MINIMUM_TIMEOUT,
};

#[test]
fn test_action_from_vec() {
    let raw = ["click for one", "one", "click for two", "two", "click for three", "three"].map(|s| s.to_string());
    assert_eq!(
        Action::from_vec(&raw),
        vec![
            Action::new("click for one", "one"),
            Action::new("click for two", "two"),
            Action::new("click for three", "three"),
        ]
    );
}

#[test]
fn server_zbus_test_timeout_before_close() {
    assert_eq!(close_timeout(0, 3000).map(Duration::from_millis), None);
    assert_eq!(close_timeout(1, 3000).map(Duration::from_millis), Some(Duration::from_millis(10)));
    assert_eq!(close_timeout(-1, 3000).map(Duration::from_millis), Some(Duration::from_millis(3000)));
    assert_eq!(close_timeout(256, 3000).map(Duration::from_millis), Some(Duration::from_millis(256)));
}

#[test]
fn mod_test_timeout_before_close() {
    assert_eq!(close_timeout(0, 3000).map(Duration::from_millis), None);
    assert_eq!(close_timeout(1, 3000).map(Duration::from_millis), Some(Duration::from_millis(10)));
    assert_eq!(close_timeout(-1, 3000).map(Duration::from_millis), Some(Duration::from_millis(3000)));
    assert_eq!(close_timeout(256, 3000).map(Duration::from_millis), Some(Duration::from_millis(256)));
}

#[test]
fn odd_last_action_is_dropped() {
    let raw = ["d1", "t1", "dangling"].map(|s| s.to_string());
    assert_eq!(Action::from_vec(&raw), vec![Action::new("d1", "t1")]);
    assert_eq!(Action::from_vec(&[]), vec![]);
}

#[test]
fn single_actions_use_key_twice() {
    let a = Action::from_single("key");
    assert_eq!(a.tag, "key");
    assert_eq!(a.description, "key");
    assert_eq!(Action::from_str("k"), Action::from_single("k"));
}

#[test]
fn close_timeout_edges() {
    assert_eq!(close_timeout(9, 3000), Some(MINIMUM_TIMEOUT));
    assert_eq!(close_timeout(10, 3000), Some(10));
    assert_eq!(close_timeout(i32::MIN, 42), Some(42));
    assert_eq!(close_timeout(i32::MAX, 42), Some(i32::MAX as u64));
}

#[test]
fn hints_that_could_not_be_read_are_dropped() {
    let raw = vec![
        Ok(Hint::Resident(true)),
        Err("bad".to_owned()),
        Ok(Hint::Category("email".to_owned())),
    ];
    assert_eq!(collect_hints(raw), vec![Hint::Resident(true), Hint::Category("email".to_owned())]);
}

#[test]
fn persistence_from_resident_or_never() {
    assert!(persistent(&vec![Hint::Resident(true)], 5000));
    assert!(persistent(&vec![], 0));
    assert!(!persistent(&vec![Hint::Resident(false)], 5000));
    assert!(!persistent(&vec![], -1));
}

#[test]
fn decisions_on_events() {
    assert!(matches!(decide(ServerEvent::ActionReceived(Ok("open".to_owned()))), ServerDecision::InvokeAction(a) if a == "open"));
    assert!(matches!(decide(ServerEvent::ActionReceived(Err("x".to_owned()))), ServerDecision::Fail(_)));
    assert!(matches!(decide(ServerEvent::CloseReceived(Ok(CloseReason::Dismissed))), ServerDecision::Close(CloseReason::Dismissed)));
    assert!(matches!(decide(ServerEvent::CloseReceived(Err("x".to_owned()))), ServerDecision::Fail(_)));
    assert!(matches!(decide(ServerEvent::HandlerFinished(Ok(None))), ServerDecision::Close(CloseReason::Dismissed)));
    assert!(matches!(decide(ServerEvent::HandlerFinished(Ok(Some(CloseReason::Expired)))), ServerDecision::Close(CloseReason::Expired)));
    assert!(matches!(decide(ServerEvent::HandlerFinished(Err("x".to_owned()))), ServerDecision::Fail(_)));
    assert!(matches!(decide(ServerEvent::Expired), ServerDecision::Close(CloseReason::Expired)));
}

#[test]
fn persistent_notifications_stay_after_an_action() {
    assert!(matches!(decide_after_invoke(true, Ok(())), ServerDecision::Continue));
    assert!(matches!(decide_after_invoke(false, Ok(())), ServerDecision::Close(CloseReason::CloseAction)));
    assert!(matches!(decide_after_invoke(true, Err("gone".to_owned())), ServerDecision::Fail(_)));
}

#[test]
fn ids_count_up_from_one() {
    let mut s = ServerState::with_default_config();
    assert_eq!(s.next_id(), 1);
    assert_eq!(s.next_id(), 2);
    assert_eq!(s.count, 2);
    assert_eq!(s.time_to_close(-1), Some(3000));
    assert_eq!(NotificationServerConfig::default_config().default_timeout, 3000);
}

#[test]
fn server_describes_itself() {
    let info = server_information("9.9.9");
    assert_eq!(info.name, "name");
    assert_eq!(info.vendor, "hoodie");
    assert_eq!(info.version, "9.9.9");
    assert_eq!(info.spec_version, "1.1");
}

// Run a session over a sequence of events, sending every action.
fn run(events: Vec<ServerEvent>, persistent_notification: bool) -> Vec<String> {
    let mut signals = Vec::new();
    let mut session = Session::new(persistent_notification);
    for event in events {
        if session.is_ended() {
            break;
        }
        match session.step(event) {
            ServerDecision::Continue => {}
            ServerDecision::InvokeAction(a) => {
                signals.push(format!("invoked {a}"));
                if let ServerDecision::Close(r) = session.after_invoke(Ok(())) {
                    signals.push(format!("closed {r:?}"));
                }
            }
            ServerDecision::Close(r) => signals.push(format!("closed {r:?}")),
            ServerDecision::Fail(_) => {}
        }
    }
    signals
}

#[test]
fn one_close_per_notification() {
    let events = || {
        vec![
            ServerEvent::ActionReceived(Ok("a".to_owned())),
            ServerEvent::ActionReceived(Ok("b".to_owned())),
            ServerEvent::CloseReceived(Ok(CloseReason::Dismissed)),
            ServerEvent::Expired,
        ]
    };
    assert_eq!(run(events(), true), vec!["invoked a", "invoked b", "closed Dismissed"]);
    assert_eq!(run(events(), false), vec!["invoked a", "closed CloseAction"]);
}

#[test]
fn sessions_end_on_close_or_failure() {
    let mut s = Session::new(false);
    assert!(matches!(s.step(ServerEvent::ActionReceived(Ok("a".to_owned()))), ServerDecision::InvokeAction(_)));
    assert!(!s.is_ended());
    assert!(matches!(s.after_invoke(Err("lost".to_owned())), ServerDecision::Fail(_)));
    assert!(s.is_ended());
    let mut p = Session::new(true);
    assert!(matches!(p.step(ServerEvent::ActionReceived(Ok("a".to_owned()))), ServerDecision::InvokeAction(_)));
    assert!(matches!(p.after_invoke(Ok(())), ServerDecision::Continue));
    assert!(!p.is_ended());
    assert!(matches!(p.step(ServerEvent::Expired), ServerDecision::Close(CloseReason::Expired)));
    assert!(p.is_ended());
}
