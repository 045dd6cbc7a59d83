use notify_rust::hints::Hint;
use notify_rust::dbus_server::{
    call_of_member, read_notify_call, NotificationServer, ServerCall, ServerReply, NOTIFY_REPLY_ID,
};
use notify_rust::message::DbusItem;
use notify_rust::action::CloseReason;
use notify_rust::noops;
use notify_rust::oneshot_server::{answer_first_event, Action, FirstEvent};

#[test]
fn dbus_server_methods() {
    assert_eq!(call_of_member("Notify"), Some(ServerCall::Notify));
    assert_eq!(call_of_member("GetCapabilities"), Some(ServerCall::GetCapabilities));
    assert_eq!(call_of_member("notify"), None);
    let mut s = NotificationServer::new();
    assert!(s.keeps_running());
    let (reply, id) = s.handle(ServerCall::Notify, "1.0");
    assert!(matches!(reply, ServerReply::Id(NOTIFY_REPLY_ID)));
    assert_eq!(id, Some(0));
    let (_, id) = s.handle(ServerCall::Notify, "1.0");
    assert_eq!(id, Some(1));
    assert_eq!(s.counter, 2);
    match s.handle(ServerCall::GetCapabilities, "1.0").0 {
        ServerReply::Capabilities(caps) => assert_eq!(caps, vec!["body".to_owned()]),
        other => panic!("unexpected reply {other:?}"),
    }
    match s.handle(ServerCall::GetServerInformation, "4.2").0 {
        ServerReply::Information(info) => {
            assert_eq!(info.name, "notify-rust daemon");
            assert_eq!(info.vendor, "notify-rust");
            assert_eq!(info.version, "4.2");
            assert_eq!(info.spec_version, "1.1");
        }
        other => panic!("unexpected reply {other:?}"),
    }
    assert!(matches!(s.handle(ServerCall::CloseNotification, "1.0").0, ServerReply::Nothing));
    assert!(s.keeps_running());
    s.handle(ServerCall::Stop, "1.0");
    assert!(!s.keeps_running());
}

#[test]
fn notify_calls_are_read() {
    let items = vec![
        DbusItem::Variant(Box::new(DbusItem::Str("app".to_owned()))),
        DbusItem::UInt32(0),
        DbusItem::Str("icon".to_owned()),
        DbusItem::Str("summary".to_owned()),
        DbusItem::Variant(Box::new(DbusItem::Str("hidden".to_owned()))),
        DbusItem::Other,
        DbusItem::Other,
        DbusItem::Variant(Box::new(DbusItem::Int32(-1))),
    ];
    let call = read_notify_call(&items);
    assert_eq!(call.appname, "app");
    assert_eq!(call.icon, "icon");
    assert_eq!(call.summary, "summary");
    assert_eq!(call.body, "");
    assert_eq!(call.timeout, -1);
}

#[test]
fn platforms_without_server() {
    assert!(noops::get_capabilities().unwrap().is_empty());
    let info = noops::get_server_information().unwrap();
    assert_eq!(info.name, "unknown");
    assert_eq!(info.vendor, "unknown");
    assert_eq!(info.version, "unknown");
    assert_eq!(info.spec_version, "unknown");
}

#[test]
fn oneshot_actions_and_answers() {
    let raw = ["open", "Open", "close", "Close", "odd"].map(|s| s.to_string());
    let actions = Action::from_vec(&raw);
    assert_eq!(actions.len(), 2);
    assert_eq!((actions[0].tag.as_str(), actions[0].description.as_str()), ("open", "Open"));
    assert_eq!((actions[1].tag.as_str(), actions[1].description.as_str()), ("close", "Close"));
    assert!(Action::from_vec(&["only".to_owned()]).is_empty());
    let pair = Action::from_pair((&"t".to_owned(), &"d".to_owned()));
    assert_eq!((pair.tag.as_str(), pair.description.as_str()), ("t", "d"));
    assert_eq!(answer_first_event(FirstEvent::Action(Ok("go".to_owned()))), (CloseReason::CloseAction, Some("go".to_owned())));
    assert_eq!(answer_first_event(FirstEvent::Close(Ok(CloseReason::Dismissed))), (CloseReason::Dismissed, None));
    assert_eq!(answer_first_event(FirstEvent::Close(Err("x".to_owned()))), (CloseReason::Expired, None));
    assert_eq!(answer_first_event(FirstEvent::Expired), (CloseReason::Expired, None));
}

#[test]
fn received_notifications_carry_the_call() {
    let items = vec![
        DbusItem::Str("app".to_owned()),
        DbusItem::UInt32(0),
        DbusItem::Str("icon".to_owned()),
        DbusItem::Str("summary".to_owned()),
        DbusItem::Str("body".to_owned()),
        DbusItem::Other,
        DbusItem::Other,
        DbusItem::Int32(5000),
    ];
    let actions = vec![DbusItem::Str("open".to_owned()), DbusItem::Variant(Box::new(DbusItem::Str("Open".to_owned())))];
    let hints = vec![(DbusItem::Str("category".to_owned()), DbusItem::Variant(Box::new(DbusItem::Str("email".to_owned()))))];
    let mut s = NotificationServer::new();
    let (reply, first) = s.receive_notify(&items, &actions, &hints);
    assert!(matches!(reply, ServerReply::Id(NOTIFY_REPLY_ID)));
    assert_eq!(first.id, 0);
    assert_eq!(first.call.appname, "app");
    assert_eq!(first.call.body, "body");
    assert_eq!(first.call.timeout, 5000);
    assert_eq!(first.actions, vec!["open".to_owned(), "Open".to_owned()]);
    assert_eq!(first.hints, vec![Hint::Category("email".to_owned())]);
    let (_, second) = s.receive_notify(&items, &Vec::new(), &Vec::new());
    assert_eq!(second.id, 1);
    assert!(second.actions.is_empty() && second.hints.is_empty());
    let repeated = vec![
        (DbusItem::Str("category".to_owned()), DbusItem::Variant(Box::new(DbusItem::Str("email".to_owned())))),
        (DbusItem::Str("bogus".to_owned()), DbusItem::Bool(true)),
        (DbusItem::Str("category".to_owned()), DbusItem::Variant(Box::new(DbusItem::Str("email".to_owned())))),
        (DbusItem::Str("other".to_owned()), DbusItem::Bool(false)),
    ];
    let (_, third) = s.receive_notify(&items, &Vec::new(), &repeated);
    assert_eq!(third.hints, vec![Hint::Category("email".to_owned()), Hint::Invalid]);
}
