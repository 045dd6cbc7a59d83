//! Levels of urgency.
use vstd::prelude::*;

use crate::text::{all_ascii, ascii_lower_char, lowercase, str_eq, to_lowercase};

verus! {

/// Levels of Urgency.
///
/// Critical notifications should not automatically expire; they should only
/// be closed when the user dismisses them.
#[derive(Eq, PartialEq, Hash, Copy, Clone, Debug, Structural)]
pub enum Urgency {
    /// The behaviour for `Low` urgency depends on the notification server.
    Low,
    /// The behaviour for `Normal` urgency depends on the notification server.
    Normal,
    /// A critical notification will not time out.
    Critical,
}

/// The urgency that a lowercase name stands for, if any: `low`/`lo`,
/// `normal`/`medium`, `critical`/`high`/`hi`.
pub open spec fn urgency_named(lower: Seq<char>) -> Option<Urgency> {
    if lower == "low"@ || lower == "lo"@ {
        Some(Urgency::Low)
    } else if lower == "normal"@ || lower == "medium"@ {
        Some(Urgency::Normal)
    } else if lower == "critical"@ || lower == "high"@ || lower == "hi"@ {
        Some(Urgency::Critical)
    } else {
        None
    }
}

/// The urgency that a wire level stands for: `0` is low, `2` critical, and
/// anything else (or nothing) normal.
pub open spec fn urgency_of_level(level: Option<u64>) -> Urgency {
    match level {
        Some(l) => if l == 0 { Urgency::Low } else if l == 2 { Urgency::Critical } else { Urgency::Normal },
        None => Urgency::Normal,
    }
}

/// The wire level of an urgency.
pub open spec fn level_of_urgency(u: Urgency) -> u8 {
    match u {
        Urgency::Low => 0u8,
        Urgency::Normal => 1u8,
        Urgency::Critical => 2u8,
    }
}

/// A name with its ASCII capitals made small.
pub open spec fn ascii_lowered(name: Seq<char>) -> Seq<char> {
    name.map_values(|c: char| ascii_lower_char(c))
}

/// Matches an already lowercased name against the known urgency names.
pub fn urgency_from_lowercase(lower: &str) -> (r: Option<Urgency>)
    ensures
        r == urgency_named(lower@),
{
    if str_eq(lower, "low") || str_eq(lower, "lo") {
        Some(Urgency::Low)
    } else if str_eq(lower, "normal") || str_eq(lower, "medium") {
        Some(Urgency::Normal)
    } else if str_eq(lower, "critical") || str_eq(lower, "high") || str_eq(lower, "hi") {
        Some(Urgency::Critical)
    } else {
        None
    }
}

impl Urgency {
    /// The urgency a name stands for, compared case-insensitively; `None` for
    /// a name that is none of the known ones.
    pub fn try_from_name(name: &str) -> (r: Option<Urgency>)
        ensures
            r == urgency_named(lowercase(name@)),
            all_ascii(name@) ==> r == urgency_named(ascii_lowered(name@)),
    {
        let lower = to_lowercase(name);
        if urgency_from_lowercase(lower.as_str()).is_some() {
            Some(Urgency::from_name(name))
        } else {
            None
        }
    }

    /// The urgency a name stands for, compared case-insensitively.
    pub fn from_name(name: &str) -> (r: Urgency)
        requires
            urgency_named(lowercase(name@)) is Some,
        ensures
            Some(r) == urgency_named(lowercase(name@)),
            all_ascii(name@) ==> Some(r) == urgency_named(ascii_lowered(name@)),
    {
        let lower = to_lowercase(name);
        match urgency_from_lowercase(lower.as_str()) {
            Some(u) => u,
            None => Urgency::Normal,
        }
    }

    /// The urgency a wire level stands for.
    pub fn from_level(level: Option<u64>) -> (r: Urgency)
        ensures
            r == urgency_of_level(level),
    {
        match level {
            Some(0) => Urgency::Low,
            Some(2) => Urgency::Critical,
            _ => Urgency::Normal,
        }
    }

    /// The wire level of this urgency (`0`, `1` or `2`).
    pub fn level(&self) -> (r: u8)
        ensures
            r == level_of_urgency(*self),
    {
        match self {
            Urgency::Low => 0,
            Urgency::Normal => 1,
            Urgency::Critical => 2,
        }
    }
}

/// Levels of Urgency, as the hint layer names them.
#[derive(Eq, PartialEq, Hash, Copy, Clone, Debug, Structural)]
pub enum NotificationUrgency {
    /// The behaviour for `Low` urgency depends on the notification server.
    Low,
    /// The behaviour for `Normal` urgency depends on the notification server.
    Normal,
    /// A critical notification will not time out.
    Critical,
}

/// The same level as an [`Urgency`].
pub open spec fn notification_urgency_of(u: Urgency) -> NotificationUrgency {
    match u {
        Urgency::Low => NotificationUrgency::Low,
        Urgency::Normal => NotificationUrgency::Normal,
        Urgency::Critical => NotificationUrgency::Critical,
    }
}

impl NotificationUrgency {
    /// The level a name stands for, compared case-insensitively; `None` for a
    /// name that is none of the known ones.
    pub fn try_from_name(name: &str) -> (r: Option<NotificationUrgency>)
        ensures
            r == (match urgency_named(lowercase(name@)) {
                Some(u) => Some(notification_urgency_of(u)),
                None => None,
            }),
            all_ascii(name@) ==> r == (match urgency_named(ascii_lowered(name@)) {
                Some(u) => Some(notification_urgency_of(u)),
                None => None,
            }),
    {
        if Urgency::try_from_name(name).is_some() {
            Some(NotificationUrgency::from_name(name))
        } else {
            None
        }
    }

    /// The level a name stands for, compared case-insensitively.
    pub fn from_name(name: &str) -> (r: NotificationUrgency)
        requires
            urgency_named(lowercase(name@)) is Some,
        ensures
            r == notification_urgency_of(urgency_named(lowercase(name@))->0),
            all_ascii(name@) ==> r == notification_urgency_of(urgency_named(ascii_lowered(name@))->0),
    {
        NotificationUrgency::of(Urgency::from_name(name))
    }

    /// The level a wire level stands for.
    pub fn from_level(level: Option<u64>) -> (r: NotificationUrgency)
        ensures
            r == notification_urgency_of(urgency_of_level(level)),
    {
        NotificationUrgency::of(Urgency::from_level(level))
    }

    /// The same level as an [`Urgency`].
    pub fn of(u: Urgency) -> (r: NotificationUrgency)
        ensures
            r == notification_urgency_of(u),
    {
        match u {
            Urgency::Low => NotificationUrgency::Low,
            Urgency::Normal => NotificationUrgency::Normal,
            Urgency::Critical => NotificationUrgency::Critical,
        }
    }
}

} // verus!
