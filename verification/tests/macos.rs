use notify_rust::action::{Action, CloseReason as Reason, UserResponse};
use notify_rust::hints::Hint;
use notify_rust::interruption_level::InterruptionLevel;
use notify_rust::notification::Notification;
use notify_rust::text::u32_text;
use notify_rust::timeout::Timeout;
use notify_rust::xdg::NotificationId;
use notify_rust::macos::{
    action_identifier_for_label, close_reason_from_center, direct_invocation_name, map_response, response_for_send,
    user_response_from_center, ActionResponse, CenterCloseReason, CloseReason, MacResponse,
};

#[test]
fn maps_click_to_default_action() {
    match map_response(MacResponse::Click, &[]) {
        ActionResponse::Custom(action) => assert_eq!(action, "default"),
        other => panic!("unexpected response: {other:?}"),
    }
}

#[test]
fn maps_button_title_to_action_identifier() {
    let actions = vec!["open".to_owned(), "Open".to_owned()];

    match map_response(MacResponse::ActionButton("Open".to_owned()), &actions) {
        ActionResponse::Custom(action) => assert_eq!(action, "open"),
        other => panic!("unexpected response: {other:?}"),
    }
}

#[test]
fn maps_close_to_dismissed() {
    match map_response(MacResponse::CloseButton("Close".to_owned()), &[]) {
        ActionResponse::Closed(CloseReason::Dismissed) => {}
        other => panic!("unexpected response: {other:?}"),
    }
}

#[test]
fn maps_silence_to_expired() {
    assert!(matches!(map_response(MacResponse::Nothing, &[]), ActionResponse::Closed(CloseReason::Expired)));
}

#[test]
fn first_matching_label_wins_and_unknown_labels_stay() {
    let actions: Vec<String> = ["a", "Same", "b", "Same", "c"].iter().map(|s| s.to_string()).collect();
    assert_eq!(action_identifier_for_label("Same", &actions), "a");
    assert_eq!(action_identifier_for_label("Other", &actions), "Other");
    // a trailing identifier without a label is not a pair
    assert_eq!(action_identifier_for_label("c", &actions), "c");
    match map_response(MacResponse::Reply("Same".to_owned()), &actions) {
        ActionResponse::Custom(action) => assert_eq!(action, "a"),
        other => panic!("unexpected response: {other:?}"),
    }
}

#[test]
fn responses_name_the_invocation() {
    assert_eq!(ActionResponse::Custom("x".to_owned()).invocation_name(), "x");
    assert_eq!(ActionResponse::Closed(CloseReason::Expired).invocation_name(), "__closed");
    assert_eq!(ActionResponse::Closed(CloseReason::Other(5)).close_reason(), Some(CloseReason::Other(5)));
    assert_eq!(ActionResponse::Custom("x".to_owned()).close_reason(), None);
    let actions = vec!["open".to_owned(), "Open".to_owned()];
    assert_eq!(direct_invocation_name(&MacResponse::ActionButton("Open".to_owned()), &actions), "open");
    assert_eq!(direct_invocation_name(&MacResponse::ActionButton("Other".to_owned()), &actions), "Other");
    assert_eq!(direct_invocation_name(&MacResponse::Click, &actions), "default");
    assert_eq!(direct_invocation_name(&MacResponse::Reply("hi".to_owned()), &actions), "hi");
    assert_eq!(direct_invocation_name(&MacResponse::CloseButton("Close".to_owned()), &actions), "__closed");
    assert_eq!(direct_invocation_name(&MacResponse::Nothing, &[]), "__closed");
}

#[test]
fn center_responses() {
    assert_eq!(
        user_response_from_center(true, Some("t".to_owned()), "a".to_owned()),
        UserResponse::Closed(Reason::Dismissed)
    );
    assert_eq!(user_response_from_center(false, Some("t".to_owned()), "a".to_owned()), UserResponse::Reply("t".to_owned()));
    assert_eq!(user_response_from_center(false, None, "default".to_owned()), UserResponse::Action("default".to_owned()));
    assert_eq!(close_reason_from_center(CenterCloseReason::Expired), Reason::Expired);
    assert_eq!(close_reason_from_center(CenterCloseReason::Dismissed), Reason::Dismissed);
}

#[test]
fn center_requests_carry_the_notification() {
    let mut n = Notification::new("app");
    n.summary("Title").body("Message").subtitle("Sub").sound_name("Ping").image_path("/i.png");
    n.action(Action::button("open", "Open")).action(Action::reply_with("r", "Reply", "Send", "Type"));
    n.timeout(Timeout::Milliseconds(4000)).id(NotificationId::Global(1204));
    n.interruption_level(InterruptionLevel::TimeSensitive).thread_id("chat.alice");
    let r = n.center_request();
    assert_eq!(r.title, "Title");
    assert_eq!(r.message, "Message");
    assert_eq!(r.subtitle.as_deref(), Some("Sub"));
    assert_eq!(r.sound.as_deref(), Some("Ping"));
    assert_eq!(r.image_path.as_deref(), Some("/i.png"));
    assert_eq!(r.actions.len(), 2);
    assert_eq!((r.actions[0].id.as_str(), r.actions[0].label.as_str()), ("open", "Open"));
    assert!(r.actions[0].reply.is_none());
    assert_eq!(r.actions[1].reply, Some(("Send".to_owned(), "Type".to_owned())));
    assert_eq!(r.timeout_ms, Some(4000));
    assert_eq!(r.id.as_deref(), Some("1204"));
    assert_eq!(r.interruption_level, Some(InterruptionLevel::TimeSensitive));
    assert_eq!(r.thread_id.as_deref(), Some("chat.alice"));
}

#[test]
fn center_requests_leave_unset_fields_out() {
    let mut n = Notification::new("app");
    n.id(NotificationId::Portal("stable".to_owned()));
    let r = n.center_request();
    assert!(r.sound.is_none() && r.image_path.is_none() && r.subtitle.is_none());
    assert_eq!(r.timeout_ms, None);
    assert_eq!(r.id.as_deref(), Some("stable"));
    assert!(r.interruption_level.is_none() && r.thread_id.is_none());
}

#[test]
fn numbers_in_decimal() {
    for n in [0u32, 7, 10, 99, 100, 4_294_967_295] {
        assert_eq!(u32_text(n), n.to_string());
    }
}

#[test]
fn center_requests_ignore_hints() {
    let mut n = Notification::new("app");
    n.hint(Hint::SoundName("Glass".to_owned())).hint(Hint::ImagePath("/h.png".to_owned()));
    let r = n.center_request();
    assert!(r.sound.is_none() && r.image_path.is_none());
}

#[test]
fn legacy_requests_carry_the_notification() {
    let mut n = Notification::new("app");
    n.summary("Title").body("Message").subtitle("Sub").sound_name("Ping").image_path("/i.png");
    n.action(Action::button("open", "Open"));
    let r = n.legacy_request();
    assert_eq!(r.title, "Title");
    assert_eq!(r.message, "Message");
    assert_eq!(r.subtitle.as_deref(), Some("Sub"));
    assert_eq!(r.sound.as_deref(), Some("Ping"));
    assert_eq!(r.image_path.as_deref(), Some("/i.png"));
    assert_eq!(r.actions, vec!["open".to_owned(), "Open".to_owned()]);
    let bare = Notification::new("app").legacy_request();
    assert!(bare.subtitle.is_none() && bare.sound.is_none() && bare.image_path.is_none() && bare.actions.is_empty());
}

#[test]
fn failed_sends_close_for_an_unknown_reason() {
    let actions = vec!["open".to_owned(), "Open".to_owned()];
    assert!(matches!(response_for_send(Err("denied".to_owned()), &actions), ActionResponse::Closed(CloseReason::Other(0))));
    assert!(matches!(
        response_for_send(Ok(MacResponse::ActionButton("Open".to_owned())), &actions),
        ActionResponse::Custom(ref a) if a == "open"
    ));
    assert!(matches!(response_for_send(Ok(MacResponse::Nothing), &actions), ActionResponse::Closed(CloseReason::Expired)));
}
