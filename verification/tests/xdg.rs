use notify_rust::message::DbusItem;
use notify_rust::xdg::{
    capabilities_from_reply, close_wait_step_for, dbus_signal_response_for, dbus_stack, dbus_stack_selected, notify_reply_id,
    zbus_signal_response_for, ActionResponse, CloseReason, CloseWait, DbusStack, NotificationBus, NotificationId,
    NOTIFICATION_DEFAULT_BUS, NOTIFICATION_INTERFACE, NOTIFICATION_OBJECTPATH,
};

#[test]
fn close_reasons_from_codes() {
    assert!(matches!(CloseReason::from_u32(1), CloseReason::Expired));
    assert!(matches!(CloseReason::from_u32(2), CloseReason::Dismissed));
    assert!(matches!(CloseReason::from_u32(3), CloseReason::CloseAction));
    assert!(matches!(CloseReason::from_u32(0), CloseReason::Other(0)));
    assert!(matches!(CloseReason::from_u32(17), CloseReason::Other(17)));
    for code in [0u32, 1, 2, 3, 4, u32::MAX] {
        assert_eq!(CloseReason::from_u32(code).code(), code);
    }
}

#[test]
fn notification_ids() {
    assert_eq!(NotificationId::from_u32(9).as_global(), Some(9));
    assert_eq!(NotificationId::from_string("x".to_owned()).as_portal(), Some("x"));
    assert_eq!(NotificationId::from_u32(9).duplicate().as_global(), Some(9));
}

#[test]
fn stacks() {
    assert!(matches!(dbus_stack(), Some(DbusStack::Zbus)));
    assert!(matches!(dbus_stack_selected(true), Some(DbusStack::Dbus)));
    assert!(matches!(dbus_stack_selected(false), Some(DbusStack::Zbus)));
}

#[test]
fn responses() {
    assert_eq!(ActionResponse::from_str("open").invocation_name(), "open");
    assert_eq!(ActionResponse::Closed(CloseReason::Expired).invocation_name(), "__closed");
    assert!(matches!(ActionResponse::Closed(CloseReason::Dismissed).close_reason(), Some(CloseReason::Dismissed)));
    assert!(ActionResponse::Custom("x").close_reason().is_none());
}

#[test]
fn dbus_signals() {
    let items = vec![DbusItem::UInt32(5), DbusItem::Str("open".to_owned())];
    let r = dbus_signal_response_for(NOTIFICATION_OBJECTPATH, NOTIFICATION_INTERFACE, "ActionInvoked", &items, 5);
    assert!(matches!(r, Some(ActionResponse::Custom("open"))));
    let r = dbus_signal_response_for(NOTIFICATION_OBJECTPATH, NOTIFICATION_INTERFACE, "ActionInvoked", &items, 6);
    assert!(r.is_none());
    let closed = vec![DbusItem::UInt32(5), DbusItem::UInt32(2)];
    let r = dbus_signal_response_for(NOTIFICATION_OBJECTPATH, NOTIFICATION_INTERFACE, "NotificationClosed", &closed, 5);
    assert!(matches!(r, Some(ActionResponse::Closed(CloseReason::Dismissed))));
    let r = dbus_signal_response_for("/elsewhere", NOTIFICATION_INTERFACE, "ActionInvoked", &items, 5);
    assert!(r.is_none());
    let r = dbus_signal_response_for(NOTIFICATION_OBJECTPATH, NOTIFICATION_INTERFACE, "ActionInvoked", &closed, 5);
    assert!(r.is_none());
}

#[test]
fn zbus_signals() {
    let body = Some((5u32, "open".to_owned()));
    assert!(matches!(
        zbus_signal_response_for(true, Some("ActionInvoked"), &body, None, 5),
        Some(ActionResponse::Custom("open"))
    ));
    assert!(zbus_signal_response_for(false, Some("ActionInvoked"), &body, None, 5).is_none());
    assert!(zbus_signal_response_for(true, Some("ActionInvoked"), &body, None, 4).is_none());
    assert!(matches!(
        zbus_signal_response_for(true, Some("NotificationClosed"), &None, Some((5, 1)), 5),
        Some(ActionResponse::Closed(CloseReason::Expired))
    ));
    assert!(zbus_signal_response_for(true, Some("Other"), &body, Some((5, 1)), 5).is_none());
    assert!(zbus_signal_response_for(true, None, &body, Some((5, 1)), 5).is_none());
}

#[test]
fn waiting_for_close() {
    assert_eq!(close_wait_step_for(false, Some("NotificationClosed"), Some((1, 1)), 1), CloseWait::Done(None));
    assert_eq!(
        close_wait_step_for(true, Some("NotificationClosed"), Some((1, 3)), 1),
        CloseWait::Done(Some(CloseReason::CloseAction))
    );
    assert_eq!(close_wait_step_for(true, Some("NotificationClosed"), Some((2, 3)), 1), CloseWait::Done(None));
    assert_eq!(close_wait_step_for(true, Some("NotificationClosed"), None, 1), CloseWait::Done(None));
    assert_eq!(close_wait_step_for(true, Some("ActionInvoked"), None, 1), CloseWait::Continue);
    assert_eq!(close_wait_step_for(true, None, None, 1), CloseWait::Continue);
}

#[test]
fn buses() {
    assert_eq!(NotificationBus::default_bus().to_name(), NOTIFICATION_DEFAULT_BUS);
    let bus = NotificationBus::custom("example").unwrap();
    assert_eq!(bus.to_name(), "de.hoodie.Notification.example");
    let bus = NotificationBus::custom("nested/path").unwrap();
    assert_eq!(bus.duplicate().into_name(), "de.hoodie.Notification.nested.path");
    let bus = NotificationBus::custom("/org/example/Notes").unwrap();
    assert_eq!(bus.to_name(), "org.example.Notes");
    assert!(NotificationBus::custom("has space").is_none());
}

#[test]
fn reply_ids() {
    assert_eq!(notify_reply_id(&vec![DbusItem::UInt32(12)]), 12);
    assert_eq!(notify_reply_id(&vec![DbusItem::Int32(12)]), 0);
    assert_eq!(notify_reply_id(&vec![]), 0);
}

#[test]
fn empty_custom_path_names_the_base() {
    let bus = NotificationBus::custom("").unwrap();
    assert_eq!(bus.to_name(), "de.hoodie.Notification.");
    assert!(NotificationBus::custom("1digit").is_none());
    assert!(NotificationBus::custom("a..b").is_none());
    assert!(NotificationBus::custom("/ab").is_none());
    assert_eq!(NotificationBus::custom("/a.b").unwrap().to_name(), "a.b");
}

#[test]
fn capabilities_are_the_string_items() {
    let items = vec![
        DbusItem::Str("body".to_owned()),
        DbusItem::Int32(3),
        DbusItem::Str("actions".to_owned()),
        DbusItem::Variant(Box::new(DbusItem::Str("hidden".to_owned()))),
    ];
    assert_eq!(capabilities_from_reply(Some(&items)), vec!["body".to_owned(), "actions".to_owned()]);
    assert!(capabilities_from_reply(None).is_empty());
    assert!(capabilities_from_reply(Some(&Vec::new())).is_empty());
}
