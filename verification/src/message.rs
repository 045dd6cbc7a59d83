//! D-Bus message items as the library reads and writes them, and the hints
//! carried in them.
use vstd::prelude::*;

use crate::hints::{
    Hint, HintView, ACTION_ICONS, CATEGORY, DESKTOP_ENTRY, IMAGE_PATH, RESIDENT, SOUND_FILE, SOUND_NAME,
    SUPPRESS_SOUND, TRANSIENT, URGENCY, X, Y,
};
use crate::image::{image_key, image_spec, ImageView, NotificationImage, Version};
use crate::text::{i32_parse, owned, parse_bool, parse_i32, parsed_bool, str_eq};
use crate::urgency::{level_of_urgency, Urgency};

verus! {

/// A D-Bus message item, with the kinds of value that the library reads or
/// writes; containers, floating-point numbers and file descriptors are `Other`.
#[derive(Debug)]
pub enum DbusItem {
    /// A string.
    Str(String),
    /// An object path.
    ObjectPath(String),
    /// A type signature.
    Signature(String),
    /// A boolean.
    Bool(bool),
    /// An unsigned byte.
    Byte(u8),
    /// A signed 16-bit integer.
    Int16(i16),
    /// An unsigned 16-bit integer.
    UInt16(u16),
    /// A signed 32-bit integer.
    Int32(i32),
    /// An unsigned 32-bit integer.
    UInt32(u32),
    /// A signed 64-bit integer.
    Int64(i64),
    /// An unsigned 64-bit integer.
    UInt64(u64),
    /// A variant wrapping another item.
    Variant(Box<DbusItem>),
    /// An image structure `(iiibiiay)`: width, height, row stride, alpha,
    /// bits per sample, channels, bytes.
    Image(NotificationImage),
    /// Any other item.
    Other,
}

/// The abstract value of a [`DbusItem`].
pub enum DbusItemView {
    Str(Seq<char>),
    ObjectPath(Seq<char>),
    Signature(Seq<char>),
    Bool(bool),
    Byte(u8),
    Int16(i16),
    UInt16(u16),
    Int32(i32),
    UInt32(u32),
    Int64(i64),
    UInt64(u64),
    Variant(Box<DbusItemView>),
    Image(ImageView),
    Other,
}

impl View for DbusItem {
    type V = DbusItemView;

    open spec fn view(&self) -> DbusItemView
        decreases self,
    {
        match self {
            DbusItem::Str(s) => DbusItemView::Str(s@),
            DbusItem::ObjectPath(s) => DbusItemView::ObjectPath(s@),
            DbusItem::Signature(s) => DbusItemView::Signature(s@),
            DbusItem::Bool(b) => DbusItemView::Bool(*b),
            DbusItem::Byte(v) => DbusItemView::Byte(*v),
            DbusItem::Int16(v) => DbusItemView::Int16(*v),
            DbusItem::UInt16(v) => DbusItemView::UInt16(*v),
            DbusItem::Int32(v) => DbusItemView::Int32(*v),
            DbusItem::UInt32(v) => DbusItemView::UInt32(*v),
            DbusItem::Int64(v) => DbusItemView::Int64(*v),
            DbusItem::UInt64(v) => DbusItemView::UInt64(*v),
            DbusItem::Variant(b) => DbusItemView::Variant(Box::new((**b).view())),
            DbusItem::Image(i) => DbusItemView::Image(i@),
            DbusItem::Other => DbusItemView::Other,
        }
    }
}

/// The item inside any number of nested variants.
pub open spec fn peeled(v: DbusItemView) -> DbusItemView
    decreases v,
{
    match v {
        DbusItemView::Variant(b) => peeled(*b),
        _ => v,
    }
}

/// The text an item holds, read through variants: strings, object paths and
/// signatures have one.
pub open spec fn item_str(v: DbusItemView) -> Option<Seq<char>> {
    match peeled(v) {
        DbusItemView::Str(s) => Some(s),
        DbusItemView::ObjectPath(s) => Some(s),
        DbusItemView::Signature(s) => Some(s),
        _ => None,
    }
}

/// The boolean an item holds, read through variants.
pub open spec fn item_bool(v: DbusItemView) -> Option<bool> {
    match peeled(v) {
        DbusItemView::Bool(b) => Some(b),
        _ => None,
    }
}

/// The signed 32-bit integer an item holds, read through variants.
pub open spec fn item_i32(v: DbusItemView) -> Option<i32> {
    match peeled(v) {
        DbusItemView::Int32(i) => Some(i),
        _ => None,
    }
}

/// The hint that a key item and a value item of a hints dictionary stand for.
pub open spec fn message_hint(key: DbusItemView, value: DbusItemView) -> HintView {
    match item_str(key) {
        None => HintView::Invalid,
        Some(k) => {
            let v = peeled(value);
            if k == CATEGORY@ {
                match item_str(v) { Some(s) => HintView::Category(s), None => HintView::Invalid }
            } else if k == ACTION_ICONS@ {
                match item_bool(v) { Some(b) => HintView::ActionIcons(b), None => HintView::Invalid }
            } else if k == DESKTOP_ENTRY@ {
                match item_str(v) { Some(s) => HintView::DesktopEntry(s), None => HintView::Invalid }
            } else if k == IMAGE_PATH@ {
                match item_str(v) { Some(s) => HintView::ImagePath(s), None => HintView::Invalid }
            } else if k == RESIDENT@ {
                match item_bool(v) { Some(b) => HintView::Resident(b), None => HintView::Invalid }
            } else if k == SOUND_FILE@ {
                match item_str(v) { Some(s) => HintView::SoundFile(s), None => HintView::Invalid }
            } else if k == SOUND_NAME@ {
                match item_str(v) { Some(s) => HintView::SoundName(s), None => HintView::Invalid }
            } else if k == SUPPRESS_SOUND@ {
                match item_bool(v) { Some(b) => HintView::SuppressSound(b), None => HintView::Invalid }
            } else if k == TRANSIENT@ {
                match item_bool(v) { Some(b) => HintView::Transient(b), None => HintView::Invalid }
            } else if k == X@ {
                match item_i32(v) { Some(i) => HintView::X(i), None => HintView::Invalid }
            } else if k == Y@ {
                match item_i32(v) { Some(i) => HintView::Y(i), None => HintView::Invalid }
            } else if k == URGENCY@ {
                match item_i32(v) {
                    Some(i) => HintView::Urgency(
                        if i == 0 { Urgency::Low } else if i == 2 { Urgency::Critical } else { Urgency::Normal },
                    ),
                    None => HintView::Invalid,
                }
            } else if item_str(v) is Some {
                HintView::Custom(k, item_str(v)->0)
            } else {
                match item_i32(v) { Some(i) => HintView::CustomInt(k, i), None => HintView::Invalid }
            }
        },
    }
}

/// The key and the item that carry a hint's value in a hints dictionary sent
/// to a server of the given specification version.
pub open spec fn message_value(h: HintView, version: Version) -> (Seq<char>, DbusItemView) {
    match h {
        HintView::ActionIcons(b) => (ACTION_ICONS@, DbusItemView::Bool(b)),
        HintView::Category(s) => (CATEGORY@, DbusItemView::Str(s)),
        HintView::DesktopEntry(s) => (DESKTOP_ENTRY@, DbusItemView::Str(s)),
        HintView::ImageData(i) => (image_key(version), DbusItemView::Image(i)),
        HintView::ImagePath(s) => (IMAGE_PATH@, DbusItemView::Str(s)),
        HintView::Resident(b) => (RESIDENT@, DbusItemView::Bool(b)),
        HintView::SoundFile(s) => (SOUND_FILE@, DbusItemView::Str(s)),
        HintView::SoundName(s) => (SOUND_NAME@, DbusItemView::Str(s)),
        HintView::SuppressSound(b) => (SUPPRESS_SOUND@, DbusItemView::Bool(b)),
        HintView::Transient(b) => (TRANSIENT@, DbusItemView::Bool(b)),
        HintView::X(v) => (X@, DbusItemView::Int32(v)),
        HintView::Y(v) => (Y@, DbusItemView::Int32(v)),
        HintView::Urgency(u) => (URGENCY@, DbusItemView::Byte(level_of_urgency(u))),
        HintView::Custom(k, v) => (k, DbusItemView::Str(v)),
        HintView::CustomInt(k, v) => (k, DbusItemView::Int32(v)),
        HintView::Invalid => ("invalid"@, DbusItemView::Str("Invalid"@)),
    }
}

/// The text of an item that is a string, or a variant directly holding one;
/// empty otherwise.
pub open spec fn message_text(v: DbusItemView) -> Seq<char> {
    match v {
        DbusItemView::Str(s) => s,
        DbusItemView::Variant(b) => match *b {
            DbusItemView::Str(s) => s,
            _ => Seq::empty(),
        },
        _ => Seq::empty(),
    }
}

impl DbusItem {
    /// The item inside any number of nested variants.
    pub fn peel(&self) -> (r: &DbusItem)
        ensures
            r@ == peeled(self@),
        decreases self,
    {
        match self {
            DbusItem::Variant(b) => b.peel(),
            _ => self,
        }
    }

    /// The text this item holds, read through variants.
    pub fn inner_str(&self) -> (r: Option<&str>)
        ensures
            match r {
                Some(s) => item_str(self@) == Some(s@),
                None => item_str(self@) is None,
            },
    {
        match self.peel() {
            DbusItem::Str(s) => Some(s.as_str()),
            DbusItem::ObjectPath(s) => Some(s.as_str()),
            DbusItem::Signature(s) => Some(s.as_str()),
            _ => None,
        }
    }

    /// The boolean this item holds, read through variants.
    pub fn inner_bool(&self) -> (r: Option<bool>)
        ensures
            r == item_bool(self@),
    {
        match self.peel() {
            DbusItem::Bool(b) => Some(*b),
            _ => None,
        }
    }

    /// The signed 32-bit integer this item holds, read through variants.
    pub fn inner_i32(&self) -> (r: Option<i32>)
        ensures
            r == item_i32(self@),
    {
        match self.peel() {
            DbusItem::Int32(i) => Some(*i),
            _ => None,
        }
    }
}

proof fn lemma_peeled_idempotent(v: DbusItemView)
    ensures
        peeled(peeled(v)) == peeled(v),
    decreases v,
{
    match v {
        DbusItemView::Variant(b) => lemma_peeled_idempotent(*b),
        _ => {},
    }
}

fn str_hint(value: &DbusItem, make: u8) -> (r: Hint)
    requires
        make < 5,
    ensures
        r@ == (match item_str(value@) {
            Some(s) => if make == 0 { HintView::Category(s) } else if make == 1 { HintView::DesktopEntry(s) }
                else if make == 2 { HintView::ImagePath(s) } else if make == 3 { HintView::SoundFile(s) }
                else { HintView::SoundName(s) },
            None => HintView::Invalid,
        }),
{
    match value.inner_str() {
        Some(s) => {
            let s = owned(s);
            if make == 0 {
                Hint::Category(s)
            } else if make == 1 {
                Hint::DesktopEntry(s)
            } else if make == 2 {
                Hint::ImagePath(s)
            } else if make == 3 {
                Hint::SoundFile(s)
            } else {
                Hint::SoundName(s)
            }
        },
        None => Hint::Invalid,
    }
}

fn bool_hint_item(value: &DbusItem, make: u8) -> (r: Hint)
    requires
        make < 4,
    ensures
        r@ == (match item_bool(value@) {
            Some(b) => if make == 0 { HintView::ActionIcons(b) } else if make == 1 { HintView::Resident(b) }
                else if make == 2 { HintView::SuppressSound(b) } else { HintView::Transient(b) },
            None => HintView::Invalid,
        }),
{
    match value.inner_bool() {
        Some(b) => if make == 0 {
            Hint::ActionIcons(b)
        } else if make == 1 {
            Hint::Resident(b)
        } else if make == 2 {
            Hint::SuppressSound(b)
        } else {
            Hint::Transient(b)
        },
        None => Hint::Invalid,
    }
}

impl Hint {
    /// Reads a hint that a server received: the hint of the key and value
    /// items, or an error naming the key when they make no valid hint.
    pub fn read_received(key: &str, value: &DbusItem) -> (r: Result<Hint, String>)
        ensures
            match r {
                Ok(h) => message_hint(DbusItemView::Str(key@), value@) == h@ && !(h@ is Invalid),
                Err(e) => message_hint(DbusItemView::Str(key@), value@) is Invalid && e@ == key@,
            },
    {
        let k = DbusItem::Str(owned(key));
        let h = Hint::from_message_items(&k, value);
        match h {
            Hint::Invalid => Err(owned(key)),
            _ => Ok(h),
        }
    }

    /// Reads a hint from a key item and a value item of a hints dictionary;
    /// a value of the wrong kind, or a key that is no string, gives `Invalid`.
    pub fn from_message_items(key: &DbusItem, value: &DbusItem) -> (r: Hint)
        ensures
            r@ == message_hint(key@, value@),
    {
        let value = value.peel();
        proof {
            lemma_peeled_idempotent(value@);
        }
        match key.inner_str() {
            None => Hint::Invalid,
            Some(k) => {
                if str_eq(k, CATEGORY) {
                    str_hint(value, 0)
                } else if str_eq(k, ACTION_ICONS) {
                    bool_hint_item(value, 0)
                } else if str_eq(k, DESKTOP_ENTRY) {
                    str_hint(value, 1)
                } else if str_eq(k, IMAGE_PATH) {
                    str_hint(value, 2)
                } else if str_eq(k, RESIDENT) {
                    bool_hint_item(value, 1)
                } else if str_eq(k, SOUND_FILE) {
                    str_hint(value, 3)
                } else if str_eq(k, SOUND_NAME) {
                    str_hint(value, 4)
                } else if str_eq(k, SUPPRESS_SOUND) {
                    bool_hint_item(value, 2)
                } else if str_eq(k, TRANSIENT) {
                    bool_hint_item(value, 3)
                } else if str_eq(k, X) {
                    match value.inner_i32() {
                        Some(i) => Hint::X(i),
                        None => Hint::Invalid,
                    }
                } else if str_eq(k, Y) {
                    match value.inner_i32() {
                        Some(i) => Hint::Y(i),
                        None => Hint::Invalid,
                    }
                } else if str_eq(k, URGENCY) {
                    match value.inner_i32() {
                        Some(i) => Hint::Urgency(
                            if i == 0 { Urgency::Low } else if i == 2 { Urgency::Critical } else { Urgency::Normal },
                        ),
                        None => Hint::Invalid,
                    }
                } else {
                    match value.inner_str() {
                        Some(v) => Hint::Custom(owned(k), owned(v)),
                        None => match value.inner_i32() {
                            Some(i) => Hint::CustomInt(owned(k), i),
                            None => Hint::Invalid,
                        },
                    }
                }
            },
        }
    }

    /// The key item and variant item under which this hint travels in a hints
    /// dictionary.
    pub fn message_entry(&self, version: Version) -> (r: (DbusItem, DbusItem))
        ensures
            r.0@ == DbusItemView::Str(message_value(self@, version).0),
            r.1@ == DbusItemView::Variant(Box::new(message_value(self@, version).1)),
    {
        let (key, value) = match self {
            Hint::ActionIcons(v) => (owned(ACTION_ICONS), DbusItem::Bool(*v)),
            Hint::Category(v) => (owned(CATEGORY), DbusItem::Str(v.clone())),
            Hint::DesktopEntry(v) => (owned(DESKTOP_ENTRY), DbusItem::Str(v.clone())),
            Hint::ImageData(i) => (image_spec(version), DbusItem::Image(i.duplicate())),
            Hint::ImagePath(v) => (owned(IMAGE_PATH), DbusItem::Str(v.clone())),
            Hint::Resident(v) => (owned(RESIDENT), DbusItem::Bool(*v)),
            Hint::SoundFile(v) => (owned(SOUND_FILE), DbusItem::Str(v.clone())),
            Hint::SoundName(v) => (owned(SOUND_NAME), DbusItem::Str(v.clone())),
            Hint::SuppressSound(v) => (owned(SUPPRESS_SOUND), DbusItem::Bool(*v)),
            Hint::Transient(v) => (owned(TRANSIENT), DbusItem::Bool(*v)),
            Hint::X(v) => (owned(X), DbusItem::Int32(*v)),
            Hint::Y(v) => (owned(Y), DbusItem::Int32(*v)),
            Hint::Urgency(u) => (owned(URGENCY), DbusItem::Byte(u.level())),
            Hint::Custom(k, v) => (k.clone(), DbusItem::Str(v.clone())),
            Hint::CustomInt(k, v) => (k.clone(), DbusItem::Int32(*v)),
            Hint::Invalid => (owned("invalid"), DbusItem::Str(owned("Invalid"))),
        };
        assert(value@ == message_value(self@, version).1);
        let boxed = DbusItem::Variant(Box::new(value));
        assert(boxed@ == DbusItemView::Variant(Box::new(value@)));
        (DbusItem::Str(key), boxed)
    }
}

/// A hint wrapped for the D-Bus message layer.
pub struct NotificationHintMessage(pub Hint);

impl NotificationHintMessage {
    /// The key item and variant item under which a hint travels.
    pub fn wrap_hint(hint: Hint, version: Version) -> (r: (DbusItem, DbusItem))
        ensures
            r.0@ == DbusItemView::Str(message_value(hint@, version).0),
            r.1@ == DbusItemView::Variant(Box::new(message_value(hint@, version).1)),
    {
        NotificationHintMessage(hint).0.message_entry(version)
    }
}

/// The text of an item that is a string, or a variant directly holding one;
/// empty otherwise.
pub fn unwrap_message_str(item: &DbusItem) -> (r: String)
    ensures
        r@ == message_text(item@),
{
    proof {
        reveal_with_fuel(<DbusItem as View>::view, 3);
    }
    match item {
        DbusItem::Str(value) => {
            assert(item@ == DbusItemView::Str(value@));
            value.clone()
        },
        DbusItem::Variant(value) => match &**value {
            DbusItem::Str(inner) => {
                assert(item@ == DbusItemView::Variant(Box::new(DbusItemView::Str(inner@))));
                inner.clone()
            },
            _ => String::new(),
        },
        _ => String::new(),
    }
}

/// The integer that an item's text parses to, if it does.
pub fn try_unwrap_message_int(item: &DbusItem) -> (r: Option<i32>)
    ensures
        r == (match i32_parse(message_text(item@)) {
            Ok(v) => Some(v),
            Err(_) => None,
        }),
{
    let text = unwrap_message_str(item);
    match parse_i32(text.as_str()) {
        Ok(v) => Some(v),
        Err(_) => None,
    }
}

/// The integer that an item's text parses to, or `0`.
pub fn unwrap_message_int(item: &DbusItem) -> (r: i32)
    ensures
        r == (match i32_parse(message_text(item@)) {
            Ok(v) => v,
            Err(_) => 0i32,
        }),
{
    match try_unwrap_message_int(item) {
        Some(v) => v,
        None => 0,
    }
}

/// The boolean that an item's text parses to, or `false`.
pub fn unwrap_message_bool(item: &DbusItem) -> (r: bool)
    ensures
        r == (parsed_bool(message_text(item@)) == Some(true)),
{
    let text = unwrap_message_str(item);
    match parse_bool(text.as_str()) {
        Ok(b) => b,
        Err(_) => false,
    }
}

/// The text of an item that is a string; empty for anything else, or nothing.
pub fn unwrap_message_string(item: Option<&DbusItem>) -> (r: String)
    ensures
        r@ == (match item {
            Some(i) => match i@ {
                DbusItemView::Str(s) => s,
                _ => Seq::empty(),
            },
            None => Seq::<char>::empty(),
        }),
{
    match item {
        Some(DbusItem::Str(value)) => value.clone(),
        _ => String::new(),
    }
}

} // verus!
