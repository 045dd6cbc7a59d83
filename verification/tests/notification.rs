use notify_rust::action::Action;
use notify_rust::hints::{Hint, WireValue};
use notify_rust::image::{NotificationImage, Version};
use notify_rust::notification::Notification;
use notify_rust::timeout::Timeout;
use notify_rust::urgency::Urgency;
use notify_rust::xdg::{NotificationId, NOTIFICATION_DEFAULT_BUS};

#[test]
fn realworld_build_pattern() {
    let notification = Notification::new("app").summary("foo").finalize();
    assert_eq!(notification.summary, "foo");

    let mut notification = Notification::new("app");
    notification.body = "foo".to_string();
    assert_eq!(notification.body, "foo");

    let mut notification = Notification::new("app");
    notification.icon = "foo".to_string();
    assert_eq!(notification.icon, "foo");

    let mut notification = Notification::new("app");
    notification.summary = "foo".to_string();
    assert_eq!(notification.summary, "foo");

    let mut notification = Notification::new("app");
    notification.timeout = Timeout::Milliseconds(42);
    assert_eq!(notification.timeout, Timeout::Milliseconds(21 * 2));

    let mut notification = Notification::new("app");
    notification.summary = "foo".to_string();
    assert_eq!(notification.summary, "foo");
}

#[test]
fn lib_build_pattern() {
    let notification = Notification::new("app").summary("foo").finalize();
    assert_eq!(notification.summary, "foo");

    let mut notification = Notification::new("app");
    notification.body = "foo".to_string();
    assert_eq!(notification.body, "foo");

    let mut notification = Notification::new("app");
    notification.icon = "foo".to_string();
    assert_eq!(notification.icon, "foo");

    let mut notification = Notification::new("app");
    notification.summary = "foo".to_string();
    assert_eq!(notification.summary, "foo");

    let mut notification = Notification::new("app");
    notification.timeout = Timeout::from_i32(42);
    assert_eq!(notification.timeout, Timeout::from_i32(21 * 2));

    let mut notification = Notification::new("app");
    notification.summary = "foo".to_string();
    assert_eq!(notification.summary, "foo");
}

#[test]
fn new_notification_is_empty() {
    let n = Notification::new("myapp");
    assert_eq!(n.appname, "myapp");
    assert_eq!(n.summary, "");
    assert_eq!(n.body, "");
    assert_eq!(n.icon, "");
    assert!(n.subtitle.is_none());
    assert!(n.hints.is_empty());
    assert!(n.actions.is_empty());
    assert_eq!(n.timeout, Timeout::Default);
    assert!(n.get_hints().is_empty());
}

#[test]
fn builders_set_fields() {
    let mut n = Notification::new("a");
    n.appname("b").summary("s").subtitle("sub").body("body").icon("i").timeout(Timeout::Never);
    assert_eq!(n.appname, "b");
    assert_eq!(n.summary, "s");
    assert_eq!(n.subtitle.as_deref(), Some("sub"));
    assert_eq!(n.body, "body");
    assert_eq!(n.icon, "i");
    assert_eq!(n.timeout, Timeout::Never);
    n.auto_icon("my-binary");
    assert_eq!(n.icon, "my-binary");
}

#[test]
fn same_hint_twice_is_kept_once() {
    let mut n = Notification::new("a");
    n.hint(Hint::Resident(true)).hint(Hint::Resident(true));
    assert_eq!(n.get_hints(), vec![Hint::Resident(true)]);
}

#[test]
fn custom_hints_keep_the_latest_per_key_and_kind() {
    let mut n = Notification::new("a");
    n.hint(Hint::Custom("k".to_owned(), "v1".to_owned()))
        .hint(Hint::Custom("k".to_owned(), "v2".to_owned()))
        .hint(Hint::CustomInt("k".to_owned(), 3));
    let hints = n.get_hints();
    assert_eq!(hints.len(), 2);
    assert!(hints.contains(&Hint::Custom("k".to_owned(), "v2".to_owned())));
    assert!(hints.contains(&Hint::CustomInt("k".to_owned(), 3)));
    assert!(!hints.contains(&Hint::Custom("k".to_owned(), "v1".to_owned())));
    // custom hints are not in the plain set
    assert!(n.hints.is_empty());
}

#[test]
fn convenience_hints() {
    let mut n = Notification::new("a");
    n.image_path("/p.png").sound_name("bell").urgency(Urgency::Low);
    let hints = n.get_hints();
    assert!(hints.contains(&Hint::ImagePath("/p.png".to_owned())));
    assert!(hints.contains(&Hint::SoundName("bell".to_owned())));
    assert!(hints.contains(&Hint::Urgency(Urgency::Low)));
}

#[test]
fn flat_actions_are_pairs() {
    let mut n = Notification::new("a");
    n.actions(["id1", "Label 1", "id2", "Label 2", "dangling"].iter().map(|s| s.to_string()).collect());
    assert_eq!(n.actions.len(), 2);
    assert_eq!(n.actions[0].id(), "id1");
    assert_eq!(n.actions[1].label(), "Label 2");
    assert_eq!(n.actions_xdg_strings(), vec!["id1", "Label 1", "id2", "Label 2"]);
    n.action(Action::reply("r", "Reply"));
    assert_eq!(n.actions_xdg_strings(), vec!["id1", "Label 1", "id2", "Label 2", "r", "Reply"]);
}

#[test]
fn notify_request_carries_everything() {
    let mut n = Notification::new("app");
    n.summary("s").body("b").icon("i").timeout(Timeout::Milliseconds(5000));
    n.hint(Hint::Category("email".to_owned()));
    n.action(Action::button("open", "Open"));
    n.id(NotificationId::Global(7));
    let r = n.notify_request(Version::new(1, 1));
    assert_eq!(r.appname, "app");
    assert_eq!(r.replaces_id, 7);
    assert_eq!(r.icon, "i");
    assert_eq!(r.summary, "s");
    assert_eq!(r.body, "b");
    assert_eq!(r.actions, vec!["open", "Open"]);
    assert_eq!(r.hints, vec![("category".to_owned(), WireValue::Str("email".to_owned()))]);
    assert_eq!(r.timeout, 5000);
}

#[test]
fn notify_request_replaces_nothing_without_numeric_id() {
    let mut n = Notification::new("app");
    assert_eq!(n.notify_request(Version::new(1, 1)).replaces_id, 0);
    assert_eq!(n.notify_request(Version::new(1, 1)).timeout, -1);
    n.id(NotificationId::Portal("p".to_owned()));
    assert_eq!(n.notify_request(Version::new(1, 1)).replaces_id, 0);
}

#[test]
fn custom_bus_notifications() {
    let n = Notification::at_bus("app", "example").unwrap();
    assert_eq!(n.appname, "app");
    assert!(Notification::at_bus("app", "not a bus name!").is_none());
    let n = Notification::new("app");
    assert_eq!(n.notify_request(Version::new(1, 1)).appname, "app");
    assert_eq!(NOTIFICATION_DEFAULT_BUS, "org.freedesktop.Notifications");
}

#[test]
fn finalize_copies() {
    let mut n = Notification::new("a");
    n.summary("s").hint(Hint::Transient(true)).hint(Hint::CustomInt("n".to_owned(), 1));
    let f = n.finalize();
    assert_eq!(f.summary, "s");
    assert_eq!(f.get_hints().len(), 2);
}

#[test]
fn image_data_attaches_an_image_hint() {
    let img = NotificationImage::from_rgb(1, 2, vec![9, 8, 7, 6, 5, 4]).unwrap();
    let mut n = Notification::new("app");
    n.image_data(img.clone());
    assert_eq!(n.get_hints(), vec![Hint::ImageData(img.clone())]);
    let r = n.notify_request(Version::new(1, 2));
    assert_eq!(r.hints, vec![("image-data".to_owned(), WireValue::Image(img.clone()))]);
    let r = n.notify_request(Version::new(1, 0));
    assert_eq!(r.hints, vec![("icon_data".to_owned(), WireValue::Image(img))]);
}
