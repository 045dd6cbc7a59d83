use notify_rust::timeout::{Timeout, TimeoutMessage};
use notify_rust::message::DbusItem;

#[test]
fn timeout_from_i32() {
    assert_eq!(Timeout::from_i32(234), Timeout::Milliseconds(234));
    assert_eq!(Timeout::from_i32(-234), Timeout::Default);
    assert_eq!(Timeout::from_i32(0), Timeout::Never)
}

#[test]
fn timeout_into_i32() {
    assert_eq!(Timeout::Default.into_i32(), -1);
    assert_eq!(Timeout::Never.into_i32(), 0);
    assert_eq!(Timeout::Milliseconds(1500).into_i32(), 1500);
}

#[test]
fn timeout_round_trips_through_wire_value() {
    for t in [Timeout::Default, Timeout::Never, Timeout::Milliseconds(1), Timeout::Milliseconds(i32::MAX as u32)] {
        assert_eq!(Timeout::from_i32(t.into_i32()), t);
    }
    // zero milliseconds is the wire value of "never"
    assert_eq!(Timeout::from_i32(Timeout::Milliseconds(0).into_i32()), Timeout::Never);
    // every negative wire value comes back as -1
    assert_eq!(Timeout::from_i32(-42).into_i32(), -1);
}

#[test]
fn timeout_from_duration() {
    assert_eq!(Timeout::from_duration_millis(2000), Timeout::Milliseconds(2000));
    assert_eq!(Timeout::from_duration_millis(0), Timeout::Never);
    assert_eq!(Timeout::from_duration_millis(u64::MAX as u128), Timeout::Default);
    assert_eq!(Timeout::from_duration_millis(i32::MAX as u128), Timeout::Milliseconds(i32::MAX as u32));
    assert_eq!(Timeout::from_duration_millis(i32::MAX as u128 + 1), Timeout::Default);
}

#[test]
fn timeout_message_reads_int32_through_variants() {
    let item = DbusItem::Variant(Box::new(DbusItem::Variant(Box::new(DbusItem::Int32(700)))));
    let m = TimeoutMessage::try_from_item(&item).unwrap();
    assert_eq!(m.timeout(), Timeout::Milliseconds(700));
    assert_eq!(TimeoutMessage::try_from_item(&DbusItem::Int32(-1)).unwrap().timeout(), Timeout::Default);
    assert!(TimeoutMessage::try_from_item(&DbusItem::UInt32(700)).is_err());
    assert!(TimeoutMessage::try_from_item(&DbusItem::Str("700".to_owned())).is_err());
    assert_eq!(TimeoutMessage::from_timeout(Timeout::Never).timeout(), Timeout::Never);
}
