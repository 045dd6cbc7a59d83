use notify_rust::hints::{Hint, WireValue};
use notify_rust::image::{NotificationImage, Version};
use notify_rust::message::{
    try_unwrap_message_int, unwrap_message_bool, unwrap_message_int, unwrap_message_str, unwrap_message_string,
    DbusItem, NotificationHintMessage,
};
use notify_rust::urgency::Urgency;

#[test]
fn hint_views() {
    assert_eq!(Hint::Resident(true).as_bool(), Some(true));
    assert_eq!(Hint::Category("c".to_owned()).as_bool(), None);
    assert_eq!(Hint::X(4).as_i32(), Some(4));
    assert_eq!(Hint::Y(-4).as_i32(), Some(-4));
    assert_eq!(Hint::Transient(false).as_i32(), None);
    assert_eq!(Hint::SoundName("bell".to_owned()).as_str(), Some("bell"));
    assert_eq!(Hint::Category("c".to_owned()).as_str(), None);
}

#[test]
fn hints_from_key_and_value() {
    assert_eq!(Hint::from_key_val("category", "email"), Ok(Hint::Category("email".to_owned())));
    assert_eq!(Hint::from_key_val("resident", "true"), Ok(Hint::Resident(true)));
    assert_eq!(Hint::from_key_val("suppress-sound", "false"), Ok(Hint::SuppressSound(false)));
    assert_eq!(Hint::from_key_val("x", "12"), Ok(Hint::X(12)));
    assert_eq!(Hint::from_key_val("y", "-3"), Ok(Hint::Y(-3)));
    assert_eq!(Hint::from_key_val("nope", "1"), Err("unknown name".to_owned()));
    assert_eq!(
        Hint::from_key_val("transient", "yes"),
        Err("provided string was not `true` or `false`".to_owned())
    );
    assert_eq!(Hint::from_key_val("x", "twelve"), Err("invalid digit found in string".to_owned()));
    assert_eq!(Hint::from_key_val("x", "99999999999"), Err("number too large to fit in target type".to_owned()));
}

#[test]
fn hints_from_variants() {
    assert_eq!(Hint::from_variant("action-icons", Some(1), Some(1), None), Hint::ActionIcons(true));
    assert_eq!(Hint::from_variant("action-icons", Some(0), Some(0), None), Hint::ActionIcons(false));
    assert_eq!(Hint::from_variant("urgency", Some(2), Some(2), None), Hint::Urgency(Urgency::Critical));
    assert_eq!(Hint::from_variant("urgency", None, None, None), Hint::Urgency(Urgency::Normal));
    assert_eq!(Hint::from_variant("category", None, None, Some("c".to_owned())), Hint::Category("c".to_owned()));
    assert_eq!(Hint::from_variant("category", Some(3), None, None), Hint::Invalid);
    assert_eq!(Hint::from_variant("x", None, Some(5), None), Hint::X(5));
    assert_eq!(Hint::from_variant("y", None, Some(0x1_0000_0007), None), Hint::Y(7));
    assert_eq!(Hint::from_variant("other", None, None, Some("v".to_owned())), Hint::Invalid);
}

#[test]
fn hint_entries() {
    assert_eq!(Hint::ActionIcons(true).entry(Version::new(1, 2)), ("action-icons".to_owned(), WireValue::Bool(true)));
    assert_eq!(Hint::Urgency(Urgency::Critical).entry(Version::new(1, 2)), ("urgency".to_owned(), WireValue::U8(2)));
    assert_eq!(Hint::CustomInt("k".to_owned(), 5).entry(Version::new(1, 2)), ("k".to_owned(), WireValue::I32(5)));
    assert_eq!(Hint::Invalid.entry(Version::new(1, 2)), ("invalid".to_owned(), WireValue::Str("invalid".to_owned())));
    assert!(Hint::X(1).same_as(&Hint::X(1)));
    assert!(!Hint::X(1).same_as(&Hint::Y(1)));
    assert!(Hint::Custom("a".to_owned(), "b".to_owned()).duplicate().same_as(&Hint::Custom("a".to_owned(), "b".to_owned())));
}

#[test]
fn hints_read_back_from_messages() {
    for h in [
        Hint::ActionIcons(true),
        Hint::Category("email".to_owned()),
        Hint::DesktopEntry("firefox".to_owned()),
        Hint::ImagePath("/p.png".to_owned()),
        Hint::Resident(false),
        Hint::SoundFile("/s.ogg".to_owned()),
        Hint::SoundName("bell".to_owned()),
        Hint::SuppressSound(true),
        Hint::Transient(true),
        Hint::X(3),
        Hint::Y(4),
        Hint::Custom("my-key".to_owned(), "v".to_owned()),
        Hint::CustomInt("my-int".to_owned(), 9),
    ] {
        let (k, v) = NotificationHintMessage::wrap_hint(h.clone(), Version::new(1, 2));
        assert_eq!(Hint::from_message_items(&k, &v), h);
    }
    // urgency travels as a byte but is read as a 32-bit integer
    let (k, v) = Hint::Urgency(Urgency::Low).message_entry(Version::new(1, 2));
    assert_eq!(Hint::from_message_items(&k, &v), Hint::Invalid);
    let urgent = (DbusItem::Str("urgency".to_owned()), DbusItem::Variant(Box::new(DbusItem::Int32(2))));
    assert_eq!(Hint::from_message_items(&urgent.0, &urgent.1), Hint::Urgency(Urgency::Critical));
    assert_eq!(Hint::from_message_items(&DbusItem::Int32(1), &DbusItem::Bool(true)), Hint::Invalid);
}

#[test]
fn message_unwrapping() {
    let s = DbusItem::Str("42".to_owned());
    let wrapped = DbusItem::Variant(Box::new(DbusItem::Str("true".to_owned())));
    assert_eq!(unwrap_message_str(&s), "42");
    assert_eq!(unwrap_message_str(&wrapped), "true");
    assert_eq!(unwrap_message_str(&DbusItem::Int32(1)), "");
    assert_eq!(try_unwrap_message_int(&s), Some(42));
    assert_eq!(try_unwrap_message_int(&wrapped), None);
    assert_eq!(unwrap_message_int(&wrapped), 0);
    assert_eq!(unwrap_message_int(&s), 42);
    assert!(unwrap_message_bool(&wrapped));
    assert!(!unwrap_message_bool(&s));
    assert_eq!(unwrap_message_string(Some(&s)), "42");
    assert_eq!(unwrap_message_string(Some(&wrapped)), "");
    assert_eq!(unwrap_message_string(None), "");
}

#[test]
fn peeling_items() {
    let nested = DbusItem::Variant(Box::new(DbusItem::Variant(Box::new(DbusItem::ObjectPath("/a".to_owned())))));
    assert_eq!(nested.inner_str(), Some("/a"));
    assert_eq!(DbusItem::Variant(Box::new(DbusItem::Bool(true))).inner_bool(), Some(true));
    assert_eq!(DbusItem::Int16(1).inner_i32(), None);
}

#[test]
fn image_hints_are_keyed_by_spec_version() {
    let img = NotificationImage::from_rgb(1, 1, vec![1, 2, 3]).unwrap();
    let hint = Hint::ImageData(img.clone());
    assert_eq!(hint.entry(Version::new(1, 2)), ("image-data".to_owned(), WireValue::Image(img.clone())));
    assert_eq!(hint.entry(Version::new(1, 1)), ("image_data".to_owned(), WireValue::Image(img.clone())));
    assert_eq!(hint.entry(Version::new(1, 0)), ("icon_data".to_owned(), WireValue::Image(img.clone())));
    let (k, v) = hint.message_entry(Version::new(1, 2));
    assert!(matches!(k, DbusItem::Str(ref s) if s == "image-data"));
    assert!(matches!(v, DbusItem::Variant(ref inner) if matches!(**inner, DbusItem::Image(ref i) if *i == img)));
    assert!(hint.same_as(&Hint::ImageData(img.duplicate())));
    assert!(!hint.same_as(&Hint::ImageData(NotificationImage::from_rgb(1, 1, vec![1, 2, 4]).unwrap())));
}
