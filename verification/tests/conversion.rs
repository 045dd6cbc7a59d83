use notify_rust::urgency::{NotificationUrgency as Urgency, Urgency as Level};

#[test]
fn urgency_from_str() {
    let u0: Urgency = Urgency::from_name("low");
    assert_eq!(u0, Urgency::Low);
    assert_eq!(Urgency::from_name("low"), Urgency::Low);
    assert_eq!(Urgency::from_name("medium"), Urgency::Normal);
    assert_eq!(Urgency::from_name("Normal"), Urgency::Normal);
    assert_eq!(Urgency::from_name("NoRmaL"), Urgency::Normal);
    assert_eq!(Urgency::from_name("High"), Urgency::Critical);
    assert_eq!(Urgency::from_name("Hi"), Urgency::Critical);
    assert_eq!(Urgency::from_name("Critical"), Urgency::Critical);
}

#[test]
fn unknown_urgency_names_are_refused() {
    assert_eq!(Urgency::try_from_name("urgent"), None);
    assert_eq!(Level::try_from_name(""), None);
    assert_eq!(Level::try_from_name("LO"), Some(Level::Low));
}

#[test]
fn urgency_levels() {
    assert_eq!(Level::from_level(Some(0)), Level::Low);
    assert_eq!(Level::from_level(Some(1)), Level::Normal);
    assert_eq!(Level::from_level(Some(2)), Level::Critical);
    assert_eq!(Level::from_level(Some(3)), Level::Normal);
    assert_eq!(Level::from_level(None), Level::Normal);
    for u in [Level::Low, Level::Normal, Level::Critical] {
        assert_eq!(Level::from_level(Some(u.level() as u64)), u);
    }
    assert_eq!(Urgency::from_level(Some(2)), Urgency::Critical);
    assert_eq!(Urgency::of(Level::Low), Urgency::Low);
}
