//! Properties that hold across the library's operations: what one conversion
//! undoes of another, what adding a hint keeps, and how the wire formats
//! read back what was written.
use vstd::prelude::*;

use crate::action::ActionView;
use crate::image::{rgb_image, ImageError, Version, IMAGE_MAX_SIZE};
use crate::windows::{duration_of, ToastDuration};
use crate::hints::{
    hint_bool, hint_entry, hint_i32, hint_str, key_val_hint, HintView, WireValueView, ACTION_ICONS, CATEGORY, DESKTOP_ENTRY, IMAGE_PATH, RESIDENT, SOUND_FILE,
    SOUND_NAME, SUPPRESS_SOUND, TRANSIENT, URGENCY, X, Y,
};
use crate::macos::identifier_for_label;
use crate::message::{message_hint, message_value, DbusItemView};
use crate::notification::{buttons_from_flat, custom_key, flat_of_actions, is_custom, with_hint, NotificationView};
use crate::priority::{priority_name, priority_of_urgency, Priority};
use crate::server::{close_timeout_of, is_persistent, MINIMUM_TIMEOUT};
use crate::text::{i32_parse, parsed_bool};
use crate::timeout::{i32_of_timeout, timeout_of_i32, Timeout};
use crate::urgency::{level_of_urgency, urgency_of_level, Urgency};
use crate::xdg::{
    close_reason_of, close_wait_step, dbus_signal_response, reason_code, zbus_signal_response, ActionResponseView,
    CloseReason, CloseWait,
};

verus! {

/// A timeout survives the trip through its wire value, unless it is a count
/// of milliseconds that is zero or does not fit in an `i32`.
pub proof fn timeout_wire_round_trip(t: Timeout)
    requires
        t matches Timeout::Milliseconds(ms) ==> 0 < ms <= i32::MAX,
    ensures
        timeout_of_i32(i32_of_timeout(t)) == t,
{
}

/// A wire value read as a timeout and written back is unchanged, except that
/// every negative value becomes `-1`.
pub proof fn wire_timeout_round_trip(v: i32)
    ensures
        i32_of_timeout(timeout_of_i32(v)) == (if v < 0 { -1i32 } else { v }),
{
}

/// Reading a flat `[id, label, ...]` list as buttons and flattening them again
/// gives back the list without an odd last element.
pub proof fn flat_actions_round_trip(raw: Seq<Seq<char>>)
    ensures
        flat_of_actions(buttons_from_flat(raw)) == raw.take(2 * (raw.len() / 2) as int),
{
    let b = buttons_from_flat(raw);
    let f = flat_of_actions(b);
    let t = raw.take(2 * (raw.len() / 2) as int);
    assert forall|i: int| 0 <= i < f.len() implies f[i] == t[i] by {
        if i % 2 == 0 {
            assert(2 * (i / 2) == i);
        } else {
            assert(2 * (i / 2) + 1 == i);
        }
    }
    assert(f =~= t);
}

/// Plain buttons flattened and read again are the same buttons.
pub proof fn buttons_round_trip(actions: Seq<ActionView>)
    requires
        forall|k: int| 0 <= k < actions.len() ==> #[trigger] actions[k] == crate::action::button_view(
            actions[k].id,
            actions[k].label,
        ),
    ensures
        buttons_from_flat(flat_of_actions(actions)) == actions,
{
    let f = flat_of_actions(actions);
    let b = buttons_from_flat(f);
    assert forall|k: int| 0 <= k < b.len() implies b[k] == actions[k] by {
        assert((2 * k) % 2 == 0);
        assert((2 * k + 1) % 2 == 1);
        assert((2 * k) / 2 == k);
        assert((2 * k + 1) / 2 == k);
    }
    assert(b =~= actions);
}

/// Adding the same hint twice is the same as adding it once.
pub proof fn hint_twice_is_once(n: NotificationView, h: HintView)
    ensures
        with_hint(with_hint(n, h), h) == with_hint(n, h),
{
    if is_custom(h) {
        assert(with_hint(with_hint(n, h), h).custom_hints =~= with_hint(n, h).custom_hints);
    } else {
        assert(with_hint(with_hint(n, h), h).hints =~= with_hint(n, h).hints);
    }
}

/// Of two custom hints with the same key and kind, the later one is kept.
pub proof fn custom_hint_latest_wins(n: NotificationView, first: HintView, second: HintView)
    requires
        is_custom(first),
        is_custom(second),
        custom_key(first) == custom_key(second),
    ensures
        with_hint(with_hint(n, first), second) == with_hint(n, second),
{
    assert(with_hint(with_hint(n, first), second).custom_hints =~= with_hint(n, second).custom_hints);
}

/// A hint that was added is among the notification's hints: in the set of
/// hints, or among the custom hints under its key.
pub proof fn added_hint_is_kept(n: NotificationView, h: HintView)
    ensures
        (with_hint(n, h).hints + with_hint(n, h).custom_hints.values()).contains(h),
        is_custom(h) ==> with_hint(n, h).custom_hints[custom_key(h)] == h,
        !is_custom(h) ==> with_hint(n, h).hints.contains(h),
{
    if is_custom(h) {
        let m = with_hint(n, h).custom_hints;
        assert(m.dom().contains(custom_key(h)));
        assert(m.values().contains(h));
    }
}

/// Hints other than custom ones leave the custom hints alone, and custom
/// hints leave the other hints alone.
pub proof fn hint_kinds_are_apart(n: NotificationView, h: HintView)
    ensures
        is_custom(h) ==> with_hint(n, h).hints == n.hints,
        !is_custom(h) ==> with_hint(n, h).custom_hints == n.custom_hints,
{
}

/// An urgency survives the trip through its wire level.
pub proof fn urgency_level_round_trip(u: Urgency)
    ensures
        urgency_of_level(Some(level_of_urgency(u) as u64)) == u,
{
}

/// A classic urgency never becomes the `High` priority: critical becomes
/// `Urgent`, the others keep their names.
pub proof fn urgency_never_high(u: Urgency)
    ensures
        priority_of_urgency(u) != Priority::High,
        u == Urgency::Critical <==> priority_of_urgency(u) == Priority::Urgent,
{
}

/// A raw close code read as a close reason gives the same code back.
pub proof fn close_code_round_trip(code: u32)
    ensures
        reason_code(close_reason_of(code)) == code,
{
}

/// A close reason survives the trip through its code, unless it is an
/// undefined reason whose code is one of the defined ones.
pub proof fn close_reason_round_trip(r: CloseReason)
    requires
        r matches CloseReason::Other(c) ==> c != 1 && c != 2 && c != 3,
    ensures
        close_reason_of(reason_code(r)) == r,
{
}

/// Whether a key is one of the hint keys that the library knows.
pub open spec fn is_known_key(k: Seq<char>) -> bool {
    k == ACTION_ICONS@ || k == CATEGORY@ || k == DESKTOP_ENTRY@ || k == IMAGE_PATH@ || k == RESIDENT@ || k
        == SOUND_FILE@ || k == SOUND_NAME@ || k == SUPPRESS_SOUND@ || k == TRANSIENT@ || k == X@ || k == Y@ || k
        == URGENCY@
}

/// The known hint keys, their lengths and first characters.
proof fn lemma_key_shapes()
    ensures
        ACTION_ICONS@.len() == 12,
        CATEGORY@.len() == 8 && CATEGORY@[0] == 'c',
        DESKTOP_ENTRY@.len() == 13,
        IMAGE_PATH@.len() == 10 && IMAGE_PATH@[0] == 'i',
        RESIDENT@.len() == 8 && RESIDENT@[0] == 'r',
        SOUND_FILE@.len() == 10 && SOUND_FILE@[0] == 's' && SOUND_FILE@[6] == 'f',
        SOUND_NAME@.len() == 10 && SOUND_NAME@[0] == 's' && SOUND_NAME@[6] == 'n',
        SUPPRESS_SOUND@.len() == 14,
        TRANSIENT@.len() == 9,
        X@.len() == 1 && X@[0] == 'x',
        Y@.len() == 1 && Y@[0] == 'y',
        URGENCY@.len() == 7,
{
    reveal_strlit("action-icons");
    reveal_strlit("category");
    reveal_strlit("desktop-entry");
    reveal_strlit("image-path");
    reveal_strlit("resident");
    reveal_strlit("sound-file");
    reveal_strlit("sound-name");
    reveal_strlit("suppress-sound");
    reveal_strlit("transient");
    reveal_strlit("x");
    reveal_strlit("y");
    reveal_strlit("urgency");
}

/// A hint written into a D-Bus hints dictionary reads back as the same hint.
/// Urgency hints are the exception (they are written as a byte and read as a
/// 32-bit integer, so they read back as invalid), and so are image data
/// (which is only ever written), the invalid hint and custom hints whose key
/// is a known one.
pub proof fn hint_message_round_trip(h: HintView, version: Version)
    requires
        !(h is Urgency),
        !(h is Invalid),
        !(h is ImageData),
        is_custom(h) ==> !is_known_key(custom_key(h).0),
    ensures
        message_hint(DbusItemView::Str(message_value(h, version).0), DbusItemView::Variant(Box::new(message_value(h, version).1)))
            == h,
{
    lemma_key_shapes();
    reveal_with_fuel(crate::message::peeled, 3);
    let key = DbusItemView::Str(message_value(h, version).0);
    let v = DbusItemView::Variant(Box::new(message_value(h, version).1));
    let w = message_value(h, version).1;
    assert(crate::message::peeled(v) == w);
    assert(crate::message::peeled(w) == w);
    assert(crate::message::item_str(key) == Some(message_value(h, version).0));
    match h {
        HintView::Custom(k, s) => {
            assert(crate::message::item_str(w) == Some(s));
        },
        HintView::CustomInt(k, i) => {
            assert(crate::message::item_str(w) is None);
            assert(crate::message::item_i32(w) == Some(i));
        },
        HintView::X(i) => {
            assert(crate::message::item_i32(w) == Some(i));
        },
        HintView::Y(i) => {
            assert(crate::message::item_i32(w) == Some(i));
        },
        HintView::ActionIcons(b) => {
            assert(crate::message::item_bool(w) == Some(b));
        },
        HintView::Resident(b) => {
            assert(crate::message::item_bool(w) == Some(b));
        },
        HintView::SuppressSound(b) => {
            assert(crate::message::item_bool(w) == Some(b));
        },
        HintView::Transient(b) => {
            assert(crate::message::item_bool(w) == Some(b));
        },
        HintView::Category(t) => {
            assert(crate::message::item_str(w) == Some(t));
        },
        HintView::DesktopEntry(t) => {
            assert(crate::message::item_str(w) == Some(t));
        },
        HintView::ImagePath(t) => {
            assert(crate::message::item_str(w) == Some(t));
        },
        HintView::SoundFile(t) => {
            assert(crate::message::item_str(w) == Some(t));
        },
        HintView::SoundName(t) => {
            assert(crate::message::item_str(w) == Some(t));
        },
        _ => {},
    }
}

/// A hint read from a name and a value is sent under that name.
pub proof fn key_val_hint_keeps_name(name: Seq<char>, value: Seq<char>, version: Version)
    ensures
        key_val_hint(name, value) matches Ok(h) ==> hint_entry(h, version).0 == name,
{
}

/// A notification that never expires gets no closing time; one left to the
/// server closes after the default; any other closes no sooner than the
/// minimum.
pub proof fn close_timeout_bounds(timeout: i32, default_timeout: u64)
    ensures
        close_timeout_of(timeout, default_timeout) is None <==> timeout == 0,
        timeout < 0 ==> close_timeout_of(timeout, default_timeout) == Some(default_timeout),
        timeout > 0 ==> close_timeout_of(timeout, default_timeout)->0 >= MINIMUM_TIMEOUT,
        timeout >= MINIMUM_TIMEOUT ==> close_timeout_of(timeout, default_timeout) == Some(timeout as u64),
{
}

/// A button title that is not among the configured labels is reported as
/// itself.
pub proof fn unknown_label_is_itself(label: Seq<char>, actions: Seq<Seq<char>>)
    requires
        forall|k: int| 0 <= k && 2 * k + 1 < actions.len() ==> #[trigger] actions[2 * k + 1] != label,
    ensures
        identifier_for_label(label, actions) == label,
    decreases actions.len(),
{
    if actions.len() >= 2 {
        let rest = actions.subrange(2, actions.len() as int);
        assert(actions[2 * 0int + 1] != label);
        assert forall|k: int| 0 <= k && 2 * k + 1 < rest.len() implies #[trigger] rest[2 * k + 1] != label by {
            assert(rest[2 * k + 1] == actions[2 * (k + 1) + 1]);
        }
        unknown_label_is_itself(label, rest);
    }
}

/// A button title maps back to the identifier of the first pair that has it
/// as label.
pub proof fn known_label_maps_to_identifier(label: Seq<char>, actions: Seq<Seq<char>>, k: int)
    requires
        0 <= k,
        2 * k + 1 < actions.len(),
        actions[2 * k + 1] == label,
        forall|j: int| 0 <= j < k ==> #[trigger] actions[2 * j + 1] != label,
    ensures
        identifier_for_label(label, actions) == actions[2 * k],
    decreases k,
{
    if k > 0 {
        let rest = actions.subrange(2, actions.len() as int);
        assert(actions[2 * 0int + 1] != label);
        assert(rest[2 * (k - 1) + 1] == actions[2 * k + 1]);
        assert(rest[2 * (k - 1)] == actions[2 * k]);
        assert forall|j: int| 0 <= j < k - 1 implies #[trigger] rest[2 * j + 1] != label by {
            assert(rest[2 * j + 1] == actions[2 * (j + 1) + 1]);
        }
        known_label_maps_to_identifier(label, rest, k - 1);
    }
}

/// Distinct priorities have distinct names on the wire.
pub proof fn priority_names_distinct(a: Priority, b: Priority)
    ensures
        priority_name(a) == priority_name(b) ==> a == b,
{
    reveal_strlit("low");
    reveal_strlit("normal");
    reveal_strlit("high");
    reveal_strlit("urgent");
    if priority_name(a) == priority_name(b) && a != b {
        assert(priority_name(a).len() != priority_name(b).len() || priority_name(a)[0] != priority_name(b)[0]);
    }
}

/// A hint added to a notification is among the entries its `Notify` call
/// sends.
pub proof fn added_hint_is_sent(n: NotificationView, h: HintView, version: Version)
    ensures
        (with_hint(n, h).hints + with_hint(n, h).custom_hints.values()).map(|x: HintView| hint_entry(x, version)).contains(
            hint_entry(h, version),
        ),
{
    added_hint_is_kept(n, h);
    let all = with_hint(n, h).hints + with_hint(n, h).custom_hints.values();
    assert(all.contains(h));
    assert(all.map(|x: HintView| hint_entry(x, version)).contains(hint_entry(h, version)));
}

/// An image built from RGB bytes keeps the width, height and bytes it was
/// given, has three 8-bit channels and no alpha, and its rows are the width
/// times three bytes long, whatever its height. It is built exactly when
/// neither side exceeds the maximum and the bytes are width times height
/// times three.
pub proof fn rgb_image_layout(width: i32, height: i32, data: Seq<u8>)
    ensures
        rgb_image(width, height, data) is Ok <==> (width <= IMAGE_MAX_SIZE && height <= IMAGE_MAX_SIZE && data.len()
            == width * height * 3),
        rgb_image(width, height, data) matches Ok(img) ==> img.width == width && img.height == height
            && img.channels == 3 && img.bits_per_sample == 8 && !img.alpha && img.data == data,
        rgb_image(width, height, data) matches Ok(img) ==> (-0x2aaa_aaaa <= width ==> img.rowstride == width * 3),
        width > IMAGE_MAX_SIZE || height > IMAGE_MAX_SIZE ==> rgb_image(width, height, data) == Err::<
            crate::image::ImageView,
            ImageError,
        >(ImageError::TooBig),
{
}

/// A hint is written into a D-Bus dictionary and sent in a `Notify` call
/// with the value it carries: its boolean, its integer or its text.
pub proof fn hints_are_written_with_their_value(h: HintView, version: Version)
    ensures
        hint_bool(h) matches Some(b) ==> message_value(h, version).1 == DbusItemView::Bool(b)
            && hint_entry(h, version).1 == WireValueView::Bool(b),
        hint_i32(h) matches Some(i) ==> message_value(h, version).1 == DbusItemView::Int32(i)
            && hint_entry(h, version).1 == WireValueView::I32(i),
        hint_str(h) matches Some(t) ==> message_value(h, version).1 == DbusItemView::Str(t)
            && hint_entry(h, version).1 == WireValueView::Str(t),
        h matches HintView::Urgency(u) ==> message_value(h, version).1 == DbusItemView::Byte(level_of_urgency(u))
            && hint_entry(h, version).1 == WireValueView::U8(level_of_urgency(u)),
{
}

/// A toast that lasts longer is never shorter: once a timeout in
/// milliseconds gives the long duration, every longer one does too, and a
/// toast that never expires is long.
pub proof fn toast_duration_monotone(a: u32, b: u32)
    ensures
        a <= b && duration_of(Timeout::Milliseconds(a)) == ToastDuration::Long ==> duration_of(
            Timeout::Milliseconds(b),
        ) == ToastDuration::Long,
        duration_of(Timeout::Never) == ToastDuration::Long,
        duration_of(Timeout::Default) == ToastDuration::Short,
{
}

/// A boolean, integer or text hint read from a name and a value carries what
/// the value parses to (the text itself for a text hint), and is sent with
/// that value; a boolean name with a value that parses always gives its hint.
pub proof fn key_val_hint_carries_value(name: Seq<char>, value: Seq<char>, version: Version)
    ensures
        key_val_hint(name, value) matches Ok(h) ==> (hint_bool(h) matches Some(b) ==> parsed_bool(value) == Some(b)
            && hint_entry(h, version).1 == WireValueView::Bool(b)),
        key_val_hint(name, value) matches Ok(h) ==> (hint_i32(h) matches Some(i) ==> i32_parse(value)
            == Ok::<i32, Seq<char>>(i) && hint_entry(h, version).1 == WireValueView::I32(i)),
        key_val_hint(name, value) matches Ok(h) ==> (hint_str(h) matches Some(t) ==> t == value
            && hint_entry(h, version).1 == WireValueView::Str(value)),
        (name == ACTION_ICONS@ || name == RESIDENT@ || name == SUPPRESS_SOUND@ || name == TRANSIENT@)
            && parsed_bool(value) is Some ==> (key_val_hint(name, value) matches Ok(h) && hint_bool(h)
            == parsed_bool(value) && hint_entry(h, version).0 == name),
{
    lemma_key_shapes();
}

/// An urgency read from a hints dictionary as a 32-bit level is the urgency
/// whose wire level that is: level 0 is low, level 2 critical, and every
/// other level normal.
pub proof fn urgency_read_from_level(u: Urgency, level: i32)
    ensures
        message_hint(DbusItemView::Str(URGENCY@), DbusItemView::Int32(level_of_urgency(u) as i32))
            == HintView::Urgency(u),
        0 <= level ==> message_hint(DbusItemView::Str(URGENCY@), DbusItemView::Int32(level)) == HintView::Urgency(
            urgency_of_level(Some(level as u64)),
        ),
        level != 0 && level != 2 ==> message_hint(DbusItemView::Str(URGENCY@), DbusItemView::Int32(level))
            == HintView::Urgency(Urgency::Normal),
{
    lemma_key_shapes();
}

/// A received notification is persistent when a `Resident(true)` hint is
/// anywhere among its hints, or when it never expires; and only then.
pub proof fn persistent_when_resident_anywhere(hints: Seq<HintView>, k: int, timeout: i32)
    ensures
        0 <= k < hints.len() && hints[k] == HintView::Resident(true) ==> is_persistent(hints, timeout),
        timeout == 0 ==> is_persistent(hints, timeout),
        is_persistent(hints, timeout) ==> timeout == 0 || exists|j: int|
            0 <= j < hints.len() && hints[j] == HintView::Resident(true),
{
    if 0 <= k < hints.len() && hints[k] == HintView::Resident(true) {
        assert(hints.contains(HintView::Resident(true)));
    }
}

/// While waiting on notification `id`, only a signal that names `id` ends
/// the wait: an `ActionInvoked` or `NotificationClosed` signal for any other
/// notification is no response, and one for `id` is the action or close
/// reason it carries.
pub proof fn signals_for_other_notifications_are_ignored(
    is_signal: bool,
    member: Option<Seq<char>>,
    action_body: Option<(u32, Seq<char>)>,
    closed_body: Option<(u32, u32)>,
    id: u32,
)
    ensures
        zbus_signal_response(is_signal, member, action_body, closed_body, id) is Some ==> is_signal && ((member
            == Some("ActionInvoked"@) && action_body is Some && action_body.unwrap().0 == id) || (member == Some(
            "NotificationClosed"@,
        ) && closed_body is Some && closed_body.unwrap().0 == id)),
        is_signal && member == Some("NotificationClosed"@) && closed_body is Some ==> zbus_signal_response(
            is_signal,
            member,
            action_body,
            closed_body,
            id,
        ) == (if closed_body.unwrap().0 == id {
            Some(ActionResponseView::Closed(close_reason_of(closed_body.unwrap().1)))
        } else {
            None
        }),
        is_signal && member == Some("ActionInvoked"@) && action_body is Some ==> zbus_signal_response(
            is_signal,
            member,
            action_body,
            closed_body,
            id,
        ) == (if action_body.unwrap().0 == id {
            Some(ActionResponseView::Custom(action_body.unwrap().1))
        } else {
            None
        }),
        close_wait_step(is_signal, member, closed_body, id) is Done && close_wait_step(
            is_signal,
            member,
            closed_body,
            id,
        )->Done_0 is Some ==> closed_body is Some && closed_body.unwrap().0 == id && close_wait_step(
            is_signal,
            member,
            closed_body,
            id,
        )->Done_0 == Some(close_reason_of(closed_body.unwrap().1)),
{
    reveal_strlit("ActionInvoked");
    reveal_strlit("NotificationClosed");
    assert("ActionInvoked"@.len() == 13 && "NotificationClosed"@.len() == 18);
    assert("ActionInvoked"@ != "NotificationClosed"@);
}

/// On the dbus-rs stack too, a signal about another notification is no
/// response: a response always comes from a signal whose first item names
/// `id`.
pub proof fn dbus_signals_for_other_notifications_are_ignored(
    path: Seq<char>,
    interface: Seq<char>,
    member: Seq<char>,
    items: Seq<DbusItemView>,
    id: u32,
)
    requires
        items.len() >= 2,
    ensures
        dbus_signal_response(path, interface, member, items, id) is Some ==> items[0] == DbusItemView::UInt32(id),
{
    reveal_strlit("ActionInvoked");
    reveal_strlit("NotificationClosed");
}

} // verus!
