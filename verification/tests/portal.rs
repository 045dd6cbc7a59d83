use notify_rust::hints::Hint;
use notify_rust::notification::Notification;
use notify_rust::portal::{Button, Icon, PortalNotification, PortalRequest};
use notify_rust::priority::Priority;
use notify_rust::urgency::Urgency;
use notify_rust::xdg::NotificationId;

fn classic_to_portal(setup: impl FnOnce(&mut Notification)) -> PortalNotification {
    let mut n = Notification::new("portal-tests");
    setup(&mut n);
    n.portal(None)
}

#[test]
fn title_maps_from_summary() {
    let p = classic_to_portal(|n| {
        n.summary("hello");
    });
    assert_eq!(p.title, "hello");
}

#[test]
fn body_maps_correctly() {
    let p = classic_to_portal(|n| {
        n.summary("t");
        n.body("world");
    });
    assert_eq!(p.body.as_deref(), Some("world"));
}

#[test]
fn empty_body_becomes_none() {
    let p = classic_to_portal(|n| {
        n.summary("t");
    });
    assert!(p.body.is_none());
}

#[test]
fn urgency_low_maps_to_priority_low() {
    let p = classic_to_portal(|n| {
        n.hint(Hint::Urgency(Urgency::Low));
    });
    assert!(matches!(p.priority, Some(Priority::Low)));
}

#[test]
fn urgency_normal_maps_to_priority_normal() {
    let p = classic_to_portal(|n| {
        n.hint(Hint::Urgency(Urgency::Normal));
    });
    assert!(matches!(p.priority, Some(Priority::Normal)));
}

#[test]
fn urgency_critical_maps_to_priority_urgent_not_high() {
    let p = classic_to_portal(|n| {
        n.hint(Hint::Urgency(Urgency::Critical));
    });
    assert!(matches!(p.priority, Some(Priority::Urgent)));
}

#[test]
fn no_urgency_hint_leaves_priority_none() {
    let p = classic_to_portal(|n| {
        n.summary("t");
    });
    assert!(p.priority.is_none());
}

#[test]
fn themed_icon_from_icon_named() {
    let p = classic_to_portal(|n| {
        n.icon("dialog-warning");
    });
    assert!(matches!(p.icon, Some(Icon::Themed(_))));
    if let Some(Icon::Themed(names)) = p.icon {
        assert_eq!(names, vec!["dialog-warning".to_owned()]);
    }
}

#[test]
fn themed_icon_from_icon() {
    let p = classic_to_portal(|n| {
        n.icon("bell");
    });
    assert!(matches!(p.icon, Some(Icon::Themed(_))));
}

#[test]
fn no_icon_set_is_none() {
    let p = classic_to_portal(|n| {
        n.summary("t");
    });
    assert!(p.icon.is_none());
}

#[test]
fn empty_actions_produces_no_buttons_and_no_default() {
    let p = classic_to_portal(|n| {
        n.summary("t");
    });
    assert!(p.buttons.is_empty());
    assert!(p.default_action.is_none());
}

#[test]
fn default_action_stores_the_key_not_the_label() {
    let p = classic_to_portal(|n| {
        n.action(notify_rust::action::Action::button("default", "Open"));
    });
    assert_eq!(p.default_action.as_deref(), Some("default"));
    assert!(p.buttons.is_empty());
}

#[test]
fn non_default_actions_become_buttons() {
    let p = classic_to_portal(|n| {
        n.action(notify_rust::action::Action::button("ok", "OK"))
            .action(notify_rust::action::Action::button("cancel", "Cancel"));
    });
    assert!(p.default_action.is_none());
    assert_eq!(p.buttons.len(), 2);
}

#[test]
fn mixed_actions_split_correctly() {
    let p = classic_to_portal(|n| {
        n.action(notify_rust::action::Action::button("default", "Open"))
            .action(notify_rust::action::Action::button("ok", "OK"));
    });
    assert_eq!(p.default_action.as_deref(), Some("default"));
    assert_eq!(p.buttons.len(), 1);
}

#[test]
fn standalone_title_required() {
    let n = PortalNotification::new("Hello");
    assert_eq!(n.title, "Hello");
}

#[test]
fn standalone_id_overrides_auto_id() {
    let n = PortalNotification::new("t").id("my-stable-id");
    assert_eq!(n.id.as_deref(), Some("my-stable-id"));
}

#[test]
fn standalone_no_id_is_none() {
    let n = PortalNotification::new("t");
    assert!(n.id.is_none());
}

#[test]
fn standalone_priority_set() {
    let n = PortalNotification::new("t").priority(Priority::Urgent);
    assert!(matches!(n.priority, Some(Priority::Urgent)));
}

#[test]
fn standalone_button_appended() {
    let n = PortalNotification::new("t")
        .button(Button::new("open", "Open"))
        .button(Button::new("cancel", "Cancel"));
    assert_eq!(n.buttons.len(), 2);
}

#[test]
fn standalone_default_action_set() {
    let n = PortalNotification::new("t").default_action("open");
    assert_eq!(n.default_action.as_deref(), Some("open"));
}

#[test]
fn priority_display_strings() {
    assert_eq!(Priority::Low.to_string(), "low");
    assert_eq!(Priority::Normal.to_string(), "normal");
    assert_eq!(Priority::High.to_string(), "high");
    assert_eq!(Priority::Urgent.to_string(), "urgent");
}

#[test]
fn notification_id_portal_roundtrip() {
    let id = NotificationId::Portal("abc".to_owned());
    assert_eq!(id.as_portal(), Some("abc"));
    assert_eq!(id.as_global(), None);
}

#[test]
fn notification_id_global_roundtrip() {
    let id = NotificationId::Global(42);
    assert_eq!(id.as_global(), Some(42));
    assert_eq!(id.as_portal(), None);
}

// Further cases of the conversion.

#[test]
fn image_path_hint_takes_the_opened_icon() {
    let mut n = Notification::new("portal-tests");
    n.icon("bell");
    n.image_path("/tmp/picture.png");
    assert_eq!(n.portal_image_path().as_deref(), Some("/tmp/picture.png"));
    let p = n.portal(Some(Icon::themed_one("opened")));
    match p.icon {
        Some(Icon::Themed(names)) => assert_eq!(names, vec!["opened".to_owned()]),
        _ => panic!("expected the opened icon"),
    }
}

#[test]
fn image_path_that_did_not_open_leaves_no_icon() {
    let mut n = Notification::new("portal-tests");
    n.icon("bell");
    n.image_path("/nowhere.png");
    let p = n.portal(None);
    assert!(p.icon.is_none());
}

#[test]
fn buttons_keep_order_key_and_label() {
    let p = classic_to_portal(|n| {
        n.action(notify_rust::action::Action::button("a", "First"))
            .action(notify_rust::action::Action::button("default", "Open"))
            .action(notify_rust::action::Action::button("b", "Second"));
    });
    assert_eq!(p.buttons[0], Button::new("a", "First"));
    assert_eq!(p.buttons[1], Button::new("b", "Second"));
    assert_eq!(p.default_action.as_deref(), Some("default"));
}

#[test]
fn request_defaults_to_normal_priority() {
    let mut n = Notification::new("portal-tests");
    n.summary("s").body("b");
    let r = PortalRequest::from_notification(&n);
    assert_eq!(r.title, "s");
    assert_eq!(r.body, "b");
    assert!(r.markup_body.is_none());
    assert_eq!(r.priority, Priority::Normal);
}

#[test]
fn request_takes_priority_from_urgency() {
    let mut n = Notification::new("portal-tests");
    n.urgency(Urgency::Critical);
    let r = PortalRequest::from_notification(&n);
    assert_eq!(r.priority, Priority::Urgent);
}

#[test]
fn standalone_builder_sets_body_and_icon() {
    let n = PortalNotification::new("t").body("b").icon_named("document-save");
    assert_eq!(n.body.as_deref(), Some("b"));
    match n.icon {
        Some(Icon::Themed(names)) => assert_eq!(names, vec!["document-save".to_owned()]),
        _ => panic!("expected a themed icon"),
    }
}
