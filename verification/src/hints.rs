//! Hints pass extra information to the notification server.
//!
//! Which of them a server honours depends on the server; `get_capabilities()`
//! usually gives some clues.
use vstd::prelude::*;

use crate::text::{bool_parse_message, i32_parse, owned, parse_bool, parse_i32, parsed_bool, str_eq};
use crate::image::{image_key, image_spec, ImageView, NotificationImage, Version};
use crate::urgency::{urgency_of_level, Urgency};

verus! {

/// Hint key: action identifiers may be shown as icons.
pub const ACTION_ICONS: &'static str = "action-icons";
/// Hint key: the notification's category.
pub const CATEGORY: &'static str = "category";
/// Hint key: the desktop entry of the calling application.
pub const DESKTOP_ENTRY: &'static str = "desktop-entry";
/// Hint key: an image to show, by path.
pub const IMAGE_PATH: &'static str = "image-path";
/// Hint key: keep the notification after an action was invoked.
pub const RESIDENT: &'static str = "resident";
/// Hint key: a sound file to play.
pub const SOUND_FILE: &'static str = "sound-file";
/// Hint key: a themed sound to play.
pub const SOUND_NAME: &'static str = "sound-name";
/// Hint key: play no sound.
pub const SUPPRESS_SOUND: &'static str = "suppress-sound";
/// Hint key: bypass the server's persistence.
pub const TRANSIENT: &'static str = "transient";
/// Hint key: x position on the screen.
pub const X: &'static str = "x";
/// Hint key: y position on the screen.
pub const Y: &'static str = "y";
/// Hint key: the urgency level.
pub const URGENCY: &'static str = "urgency";
/// Key and value used for a hint that could not be read.
pub const INVALID: &'static str = "invalid";

/// All currently implemented hints that can be sent.
#[derive(Eq, PartialEq, Hash, Clone, Debug)]
pub enum Hint {
    /// If true, server may interpret action identifiers as named icons and display those.
    ActionIcons(bool),
    /// The notification's category.
    Category(String),
    /// Name of the desktop entry representing the calling application.
    DesktopEntry(String),
    /// Image as raw data.
    ImageData(NotificationImage),
    /// Display the image at this path.
    ImagePath(String),
    /// Keep the notification after an action was invoked; timeout 0 does the same on more servers.
    Resident(bool),
    /// Play the sound at this path.
    SoundFile(String),
    /// A themeable named sound to play when the notification pops up.
    SoundName(String),
    /// Suppress the notification sound.
    SuppressSound(bool),
    /// Treat the notification as transient.
    Transient(bool),
    /// Lets the notification point to a certain 'x' position on the screen.
    X(i32),
    /// Lets the notification point to a certain 'y' position on the screen.
    Y(i32),
    /// The urgency: low, normal or critical.
    Urgency(Urgency),
    /// Any other string hint.
    Custom(String, String),
    /// Any other integer hint.
    CustomInt(String, i32),
    /// Stands for a hint that could not be read.
    Invalid,
}

/// The abstract value of a [`Hint`].
pub enum HintView {
    ActionIcons(bool),
    Category(Seq<char>),
    DesktopEntry(Seq<char>),
    ImageData(ImageView),
    ImagePath(Seq<char>),
    Resident(bool),
    SoundFile(Seq<char>),
    SoundName(Seq<char>),
    SuppressSound(bool),
    Transient(bool),
    X(i32),
    Y(i32),
    Urgency(Urgency),
    Custom(Seq<char>, Seq<char>),
    CustomInt(Seq<char>, i32),
    Invalid,
}

impl View for Hint {
    type V = HintView;

    open spec fn view(&self) -> HintView {
        match self {
            Hint::ActionIcons(b) => HintView::ActionIcons(*b),
            Hint::Category(s) => HintView::Category(s@),
            Hint::DesktopEntry(s) => HintView::DesktopEntry(s@),
            Hint::ImageData(i) => HintView::ImageData(i@),
            Hint::ImagePath(s) => HintView::ImagePath(s@),
            Hint::Resident(b) => HintView::Resident(*b),
            Hint::SoundFile(s) => HintView::SoundFile(s@),
            Hint::SoundName(s) => HintView::SoundName(s@),
            Hint::SuppressSound(b) => HintView::SuppressSound(*b),
            Hint::Transient(b) => HintView::Transient(*b),
            Hint::X(v) => HintView::X(*v),
            Hint::Y(v) => HintView::Y(*v),
            Hint::Urgency(u) => HintView::Urgency(*u),
            Hint::Custom(k, v) => HintView::Custom(k@, v@),
            Hint::CustomInt(k, v) => HintView::CustomInt(k@, *v),
            Hint::Invalid => HintView::Invalid,
        }
    }
}

/// The boolean a hint carries, if it is one of the boolean hints.
pub open spec fn hint_bool(h: HintView) -> Option<bool> {
    match h {
        HintView::ActionIcons(b) => Some(b),
        HintView::Resident(b) => Some(b),
        HintView::SuppressSound(b) => Some(b),
        HintView::Transient(b) => Some(b),
        _ => None,
    }
}

/// The integer a hint carries, if it is a position hint.
pub open spec fn hint_i32(h: HintView) -> Option<i32> {
    match h {
        HintView::X(v) => Some(v),
        HintView::Y(v) => Some(v),
        _ => None,
    }
}

/// The string a hint carries, if it is a desktop entry, image path or sound.
pub open spec fn hint_str(h: HintView) -> Option<Seq<char>> {
    match h {
        HintView::DesktopEntry(s) => Some(s),
        HintView::ImagePath(s) => Some(s),
        HintView::SoundFile(s) => Some(s),
        HintView::SoundName(s) => Some(s),
        _ => None,
    }
}

/// A boolean hint read from a string value, or the parse error's message.
pub open spec fn bool_hint(value: Seq<char>, make: spec_fn(bool) -> HintView) -> Result<HintView, Seq<char>> {
    match parsed_bool(value) {
        Some(b) => Ok(make(b)),
        None => Err(bool_parse_message(value)),
    }
}

/// A position hint read from a string value, or the parse error's message.
pub open spec fn i32_hint(value: Seq<char>, make: spec_fn(i32) -> HintView) -> Result<HintView, Seq<char>> {
    match i32_parse(value) {
        Ok(v) => Ok(make(v)),
        Err(e) => Err(e),
    }
}

/// The hint that a name and a string value stand for.
pub open spec fn key_val_hint(name: Seq<char>, value: Seq<char>) -> Result<HintView, Seq<char>> {
    if name == ACTION_ICONS@ {
        bool_hint(value, |b: bool| HintView::ActionIcons(b))
    } else if name == CATEGORY@ {
        Ok(HintView::Category(value))
    } else if name == DESKTOP_ENTRY@ {
        Ok(HintView::DesktopEntry(value))
    } else if name == IMAGE_PATH@ {
        Ok(HintView::ImagePath(value))
    } else if name == RESIDENT@ {
        bool_hint(value, |b: bool| HintView::Resident(b))
    } else if name == SOUND_FILE@ {
        Ok(HintView::SoundFile(value))
    } else if name == SOUND_NAME@ {
        Ok(HintView::SoundName(value))
    } else if name == SUPPRESS_SOUND@ {
        bool_hint(value, |b: bool| HintView::SuppressSound(b))
    } else if name == TRANSIENT@ {
        bool_hint(value, |b: bool| HintView::Transient(b))
    } else if name == X@ {
        i32_hint(value, |v: i32| HintView::X(v))
    } else if name == Y@ {
        i32_hint(value, |v: i32| HintView::Y(v))
    } else {
        Err("unknown name"@)
    }
}

/// The hint that a D-Bus key and the views that its variant value offers
/// (as an unsigned number, a signed number, a string) stand for.
pub open spec fn variant_hint(key: Seq<char>, as_u64: Option<u64>, as_i64: Option<i64>, as_str: Option<Seq<char>>) -> HintView {
    if key == ACTION_ICONS@ {
        HintView::ActionIcons(as_u64 == Some(1u64))
    } else if key == URGENCY@ {
        HintView::Urgency(urgency_of_level(as_u64))
    } else if key == CATEGORY@ && as_str is Some {
        HintView::Category(as_str->0)
    } else if key == DESKTOP_ENTRY@ && as_str is Some {
        HintView::DesktopEntry(as_str->0)
    } else if key == IMAGE_PATH@ && as_str is Some {
        HintView::ImagePath(as_str->0)
    } else if key == RESIDENT@ {
        HintView::Resident(as_u64 == Some(1u64))
    } else if key == SOUND_FILE@ && as_str is Some {
        HintView::SoundFile(as_str->0)
    } else if key == SOUND_NAME@ && as_str is Some {
        HintView::SoundName(as_str->0)
    } else if key == SUPPRESS_SOUND@ {
        HintView::SuppressSound(as_u64 == Some(1u64))
    } else if key == TRANSIENT@ {
        HintView::Transient(as_u64 == Some(1u64))
    } else if key == X@ && as_i64 is Some {
        HintView::X(as_i64->0 as i32)
    } else if key == Y@ && as_i64 is Some {
        HintView::Y(as_i64->0 as i32)
    } else {
        HintView::Invalid
    }
}

/// The value of a hint as it travels to the server.
#[derive(Clone, Debug, PartialEq, Eq)]
pub enum WireValue {
    /// A boolean.
    Bool(bool),
    /// A string.
    Str(String),
    /// A signed 32-bit integer.
    I32(i32),
    /// A byte.
    U8(u8),
    /// An image structure `(iiibiiay)`.
    Image(NotificationImage),
}

/// The abstract value of a [`WireValue`].
pub enum WireValueView {
    Bool(bool),
    Str(Seq<char>),
    I32(i32),
    U8(u8),
    Image(ImageView),
}

impl View for WireValue {
    type V = WireValueView;

    open spec fn view(&self) -> WireValueView {
        match self {
            WireValue::Bool(b) => WireValueView::Bool(*b),
            WireValue::Str(s) => WireValueView::Str(s@),
            WireValue::I32(v) => WireValueView::I32(*v),
            WireValue::U8(v) => WireValueView::U8(*v),
            WireValue::Image(i) => WireValueView::Image(i@),
        }
    }
}

/// The key and value under which a hint is sent to a server that follows
/// the given version of the specification; only the key of image data
/// depends on it.
pub open spec fn hint_entry(h: HintView, version: Version) -> (Seq<char>, WireValueView) {
    match h {
        HintView::ActionIcons(b) => (ACTION_ICONS@, WireValueView::Bool(b)),
        HintView::Category(s) => (CATEGORY@, WireValueView::Str(s)),
        HintView::DesktopEntry(s) => (DESKTOP_ENTRY@, WireValueView::Str(s)),
        HintView::ImageData(i) => (image_key(version), WireValueView::Image(i)),
        HintView::ImagePath(s) => (IMAGE_PATH@, WireValueView::Str(s)),
        HintView::Resident(b) => (RESIDENT@, WireValueView::Bool(b)),
        HintView::SoundFile(s) => (SOUND_FILE@, WireValueView::Str(s)),
        HintView::SoundName(s) => (SOUND_NAME@, WireValueView::Str(s)),
        HintView::SuppressSound(b) => (SUPPRESS_SOUND@, WireValueView::Bool(b)),
        HintView::Transient(b) => (TRANSIENT@, WireValueView::Bool(b)),
        HintView::X(v) => (X@, WireValueView::I32(v)),
        HintView::Y(v) => (Y@, WireValueView::I32(v)),
        HintView::Urgency(u) => (URGENCY@, WireValueView::U8(crate::urgency::level_of_urgency(u))),
        HintView::Custom(k, v) => (k, WireValueView::Str(v)),
        HintView::CustomInt(k, v) => (k, WireValueView::I32(v)),
        HintView::Invalid => (INVALID@, WireValueView::Str(INVALID@)),
    }
}

impl Hint {
    /// A copy of this hint.
    pub fn duplicate(&self) -> (r: Hint)
        ensures
            r@ == self@,
    {
        match self {
            Hint::ActionIcons(b) => Hint::ActionIcons(*b),
            Hint::Category(s) => Hint::Category(s.clone()),
            Hint::DesktopEntry(s) => Hint::DesktopEntry(s.clone()),
            Hint::ImageData(i) => Hint::ImageData(i.duplicate()),
            Hint::ImagePath(s) => Hint::ImagePath(s.clone()),
            Hint::Resident(b) => Hint::Resident(*b),
            Hint::SoundFile(s) => Hint::SoundFile(s.clone()),
            Hint::SoundName(s) => Hint::SoundName(s.clone()),
            Hint::SuppressSound(b) => Hint::SuppressSound(*b),
            Hint::Transient(b) => Hint::Transient(*b),
            Hint::X(v) => Hint::X(*v),
            Hint::Y(v) => Hint::Y(*v),
            Hint::Urgency(u) => Hint::Urgency(*u),
            Hint::Custom(k, v) => Hint::Custom(k.clone(), v.clone()),
            Hint::CustomInt(k, v) => Hint::CustomInt(k.clone(), *v),
            Hint::Invalid => Hint::Invalid,
        }
    }

    /// Whether two hints are the same hint.
    pub fn same_as(&self, other: &Hint) -> (r: bool)
        ensures
            r == (self@ == other@),
    {
        match (self, other) {
            (Hint::ActionIcons(a), Hint::ActionIcons(b)) => *a == *b,
            (Hint::Category(a), Hint::Category(b)) => *a == *b,
            (Hint::DesktopEntry(a), Hint::DesktopEntry(b)) => *a == *b,
            (Hint::ImageData(a), Hint::ImageData(b)) => a.same_as(b),
            (Hint::ImagePath(a), Hint::ImagePath(b)) => *a == *b,
            (Hint::Resident(a), Hint::Resident(b)) => *a == *b,
            (Hint::SoundFile(a), Hint::SoundFile(b)) => *a == *b,
            (Hint::SoundName(a), Hint::SoundName(b)) => *a == *b,
            (Hint::SuppressSound(a), Hint::SuppressSound(b)) => *a == *b,
            (Hint::Transient(a), Hint::Transient(b)) => *a == *b,
            (Hint::X(a), Hint::X(b)) => *a == *b,
            (Hint::Y(a), Hint::Y(b)) => *a == *b,
            (Hint::Urgency(a), Hint::Urgency(b)) => *a == *b,
            (Hint::Custom(k1, v1), Hint::Custom(k2, v2)) => *k1 == *k2 && *v1 == *v2,
            (Hint::CustomInt(k1, v1), Hint::CustomInt(k2, v2)) => *k1 == *k2 && *v1 == *v2,
            (Hint::Invalid, Hint::Invalid) => true,
            _ => false,
        }
    }

    /// Get the `bool` representation of this hint.
    pub fn as_bool(&self) -> (r: Option<bool>)
        ensures
            r == hint_bool(self@),
    {
        match *self {
            Hint::ActionIcons(inner) => Some(inner),
            Hint::Resident(inner) => Some(inner),
            Hint::SuppressSound(inner) => Some(inner),
            Hint::Transient(inner) => Some(inner),
            _ => None,
        }
    }

    /// Get the `i32` representation of this hint.
    pub fn as_i32(&self) -> (r: Option<i32>)
        ensures
            r == hint_i32(self@),
    {
        match *self {
            Hint::X(inner) => Some(inner),
            Hint::Y(inner) => Some(inner),
            _ => None,
        }
    }

    /// Get the `&str` representation of this hint.
    pub fn as_str(&self) -> (r: Option<&str>)
        ensures
            match r {
                Some(s) => hint_str(self@) == Some(s@),
                None => hint_str(self@) is None,
            },
    {
        match self {
            Hint::DesktopEntry(inner) => Some(inner.as_str()),
            Hint::ImagePath(inner) => Some(inner.as_str()),
            Hint::SoundFile(inner) => Some(inner.as_str()),
            Hint::SoundName(inner) => Some(inner.as_str()),
            _ => None,
        }
    }

    /// Converts a name and a string value into a hint.
    pub fn from_key_val(name: &str, value: &str) -> (r: Result<Hint, String>)
        ensures
            match r {
                Ok(h) => key_val_hint(name@, value@) == Ok::<HintView, Seq<char>>(h@),
                Err(e) => key_val_hint(name@, value@) == Err::<HintView, Seq<char>>(e@),
            },
    {
        if str_eq(name, ACTION_ICONS) {
            match parse_bool(value) {
                Ok(b) => Ok(Hint::ActionIcons(b)),
                Err(e) => Err(e),
            }
        } else if str_eq(name, CATEGORY) {
            Ok(Hint::Category(owned(value)))
        } else if str_eq(name, DESKTOP_ENTRY) {
            Ok(Hint::DesktopEntry(owned(value)))
        } else if str_eq(name, IMAGE_PATH) {
            Ok(Hint::ImagePath(owned(value)))
        } else if str_eq(name, RESIDENT) {
            match parse_bool(value) {
                Ok(b) => Ok(Hint::Resident(b)),
                Err(e) => Err(e),
            }
        } else if str_eq(name, SOUND_FILE) {
            Ok(Hint::SoundFile(owned(value)))
        } else if str_eq(name, SOUND_NAME) {
            Ok(Hint::SoundName(owned(value)))
        } else if str_eq(name, SUPPRESS_SOUND) {
            match parse_bool(value) {
                Ok(b) => Ok(Hint::SuppressSound(b)),
                Err(e) => Err(e),
            }
        } else if str_eq(name, TRANSIENT) {
            match parse_bool(value) {
                Ok(b) => Ok(Hint::Transient(b)),
                Err(e) => Err(e),
            }
        } else if str_eq(name, X) {
            match parse_i32(value) {
                Ok(v) => Ok(Hint::X(v)),
                Err(e) => Err(e),
            }
        } else if str_eq(name, Y) {
            match parse_i32(value) {
                Ok(v) => Ok(Hint::Y(v)),
                Err(e) => Err(e),
            }
        } else {
            Err(owned("unknown name"))
        }
    }

    /// Reads a hint from a D-Bus key and the views that its variant value
    /// offers: as an unsigned number, as a signed number, as a string.
    pub fn from_variant(key: &str, as_u64: Option<u64>, as_i64: Option<i64>, as_str: Option<String>) -> (r: Hint)
        ensures
            r@ == variant_hint(key@, as_u64, as_i64, match as_str { Some(s) => Some(s@), None => None }),
    {
        let is_one = match as_u64 {
            Some(v) => v == 1,
            None => false,
        };
        if str_eq(key, ACTION_ICONS) {
            Hint::ActionIcons(is_one)
        } else if str_eq(key, URGENCY) {
            Hint::Urgency(Urgency::from_level(as_u64))
        } else if str_eq(key, CATEGORY) && as_str.is_some() {
            Hint::Category(as_str.unwrap())
        } else if str_eq(key, DESKTOP_ENTRY) && as_str.is_some() {
            Hint::DesktopEntry(as_str.unwrap())
        } else if str_eq(key, IMAGE_PATH) && as_str.is_some() {
            Hint::ImagePath(as_str.unwrap())
        } else if str_eq(key, RESIDENT) {
            Hint::Resident(is_one)
        } else if str_eq(key, SOUND_FILE) && as_str.is_some() {
            Hint::SoundFile(as_str.unwrap())
        } else if str_eq(key, SOUND_NAME) && as_str.is_some() {
            Hint::SoundName(as_str.unwrap())
        } else if str_eq(key, SUPPRESS_SOUND) {
            Hint::SuppressSound(is_one)
        } else if str_eq(key, TRANSIENT) {
            Hint::Transient(is_one)
        } else if str_eq(key, X) && as_i64.is_some() {
            Hint::X(#[verifier::truncate] (as_i64.unwrap() as i32))
        } else if str_eq(key, Y) && as_i64.is_some() {
            Hint::Y(#[verifier::truncate] (as_i64.unwrap() as i32))
        } else {
            Hint::Invalid
        }
    }

    /// The key and value under which this hint is sent to a server that
    /// follows the given version of the specification.
    pub fn entry(&self, version: Version) -> (r: (String, WireValue))
        ensures
            (r.0@, r.1@) == hint_entry(self@, version),
    {
        match self {
            Hint::ActionIcons(value) => (owned(ACTION_ICONS), WireValue::Bool(*value)),
            Hint::Category(value) => (owned(CATEGORY), WireValue::Str(value.clone())),
            Hint::DesktopEntry(value) => (owned(DESKTOP_ENTRY), WireValue::Str(value.clone())),
            Hint::ImageData(image) => (image_spec(version), WireValue::Image(image.duplicate())),
            Hint::ImagePath(value) => (owned(IMAGE_PATH), WireValue::Str(value.clone())),
            Hint::Resident(value) => (owned(RESIDENT), WireValue::Bool(*value)),
            Hint::SoundFile(value) => (owned(SOUND_FILE), WireValue::Str(value.clone())),
            Hint::SoundName(value) => (owned(SOUND_NAME), WireValue::Str(value.clone())),
            Hint::SuppressSound(value) => (owned(SUPPRESS_SOUND), WireValue::Bool(*value)),
            Hint::Transient(value) => (owned(TRANSIENT), WireValue::Bool(*value)),
            Hint::X(value) => (owned(X), WireValue::I32(*value)),
            Hint::Y(value) => (owned(Y), WireValue::I32(*value)),
            Hint::Urgency(value) => (owned(URGENCY), WireValue::U8(value.level())),
            Hint::Custom(key, val) => (key.clone(), WireValue::Str(val.clone())),
            Hint::CustomInt(key, val) => (key.clone(), WireValue::I32(*val)),
            Hint::Invalid => (owned(INVALID), WireValue::Str(owned(INVALID))),
        }
    }
}

} // verus!
