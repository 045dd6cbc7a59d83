use notify_rust::action::Action;
use notify_rust::notification::Notification;
use notify_rust::timeout::Timeout;
use notify_rust::urgency::Urgency;
use notify_rust::windows::{
    invocation_for_event, toast_buttons, toast_duration, toast_scenario, CloseReason, DismissalReason, ToastDuration,
    ToastEvent, ToastScenario,
};

#[test]
fn maps_missing_dismiss_reason_to_other() {
    assert!(matches!(CloseReason::from_dismissal(None::<DismissalReason>), CloseReason::Other));
}

#[test]
fn maps_dismiss_reasons() {
    assert_eq!(CloseReason::from_dismissal(Some(DismissalReason::TimedOut)), CloseReason::Expired);
    assert_eq!(CloseReason::from_dismissal(Some(DismissalReason::UserCanceled)), CloseReason::Dismissed);
    assert_eq!(CloseReason::from_dismissal(Some(DismissalReason::ApplicationHidden)), CloseReason::CloseAction);
}

#[test]
fn events_name_the_invocation() {
    assert_eq!(invocation_for_event(Some(ToastEvent::Activated(Some("yes".to_owned())))), "yes");
    assert_eq!(invocation_for_event(Some(ToastEvent::Activated(None))), "default");
    assert_eq!(invocation_for_event(Some(ToastEvent::Dismissed(CloseReason::Expired))), "__closed");
    assert_eq!(invocation_for_event(None), "__closed");
    assert_eq!(ToastEvent::Dismissed(CloseReason::Dismissed).close_reason(), Some(CloseReason::Dismissed));
    assert_eq!(ToastEvent::Activated(None).close_reason(), None);
}

#[test]
fn durations_and_scenarios() {
    assert_eq!(toast_duration(Timeout::Default), ToastDuration::Short);
    assert_eq!(toast_duration(Timeout::Never), ToastDuration::Long);
    assert_eq!(toast_duration(Timeout::Milliseconds(24999)), ToastDuration::Short);
    assert_eq!(toast_duration(Timeout::Milliseconds(25000)), ToastDuration::Long);
    assert_eq!(toast_scenario(Some(Urgency::Critical)), ToastScenario::Reminder);
    assert_eq!(toast_scenario(Some(Urgency::Low)), ToastScenario::Default);
    assert_eq!(toast_scenario(None), ToastScenario::Default);
}

#[test]
fn buttons_from_pairs() {
    let actions: Vec<String> = ["ok", "OK", "no", "No", "odd"].iter().map(|s| s.to_string()).collect();
    assert_eq!(
        toast_buttons(&actions),
        vec![("OK".to_owned(), "ok".to_owned()), ("No".to_owned(), "no".to_owned())]
    );
    assert!(toast_buttons(&[]).is_empty());
}

#[test]
fn toast_requests_carry_the_notification() {
    let mut n = Notification::new("app");
    n.summary("Title").subtitle("Sub").body("Body").sound_name("Mail").image_path("C:/i.png").app_id("my.app");
    n.urgency(Urgency::Critical).timeout(Timeout::Milliseconds(30000));
    n.action(Action::button("yes", "Yes")).action(Action::button("no", "No"));
    let r = n.toast_request("fallback");
    assert_eq!(r.app_id, "my.app");
    assert_eq!((r.title.as_str(), r.text1.as_str(), r.text2.as_str()), ("Title", "Sub", "Body"));
    assert_eq!(r.sound.as_deref(), Some("Mail"));
    assert_eq!(r.image_path.as_deref(), Some("C:/i.png"));
    assert_eq!(r.duration, ToastDuration::Long);
    assert_eq!(r.scenario, ToastScenario::Reminder);
    assert_eq!(r.buttons, vec![("Yes".to_owned(), "yes".to_owned()), ("No".to_owned(), "no".to_owned())]);
}

#[test]
fn toast_requests_fall_back_to_defaults() {
    let mut n = Notification::new("app");
    n.summary("Title").urgency(Urgency::Low);
    let r = n.toast_request("fallback");
    assert_eq!(r.app_id, "fallback");
    assert_eq!(r.text1, "");
    assert!(r.sound.is_none() && r.image_path.is_none() && r.buttons.is_empty());
    assert_eq!(r.duration, ToastDuration::Short);
    assert_eq!(r.scenario, ToastScenario::Default);
}
