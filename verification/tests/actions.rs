use notify_rust::action::{Action, ActionResponse, CloseReason, UserResponse};

#[test]
fn buttons_and_replies() {
    let b = Action::button("open", "Open");
    assert_eq!(b.id(), "open");
    assert_eq!(b.label(), "Open");
    assert!(!b.is_reply());
    let r = Action::reply("answer", "Answer");
    assert!(r.is_reply());
    assert_eq!(r, Action::reply_with("answer", "Answer", "Reply", ""));
    let guarded = Action::button("pay", "Pay").requires_authentication();
    assert_ne!(guarded, Action::button("pay", "Pay"));
    assert_eq!(guarded.duplicate(), guarded);
}

#[test]
fn default_action_detection() {
    assert!(UserResponse::Action("default".to_owned()).is_default_action());
    assert!(!UserResponse::Action("open".to_owned()).is_default_action());
    assert!(!UserResponse::Reply("default".to_owned()).is_default_action());
    assert!(!UserResponse::Closed(CloseReason::Dismissed).is_default_action());
    assert!(ActionResponse::from_key("default").is_default_action());
    assert!(!ActionResponse::Closed(CloseReason::Expired).is_default_action());
}

#[test]
fn close_reason_codes() {
    assert_eq!(CloseReason::from_u32(1), CloseReason::Expired);
    assert_eq!(CloseReason::from_u32(2), CloseReason::Dismissed);
    assert_eq!(CloseReason::from_u32(3), CloseReason::CloseAction);
    assert_eq!(CloseReason::from_u32(0), CloseReason::Other);
    assert_eq!(CloseReason::from_u32(4), CloseReason::Other);
}
