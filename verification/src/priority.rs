//! Priority of a notification sent via the desktop portal.
use vstd::prelude::*;

use crate::text::owned;
use crate::urgency::Urgency;

verus! {

/// Priority of a notification sent via the desktop portal; the `priority`
/// field of the `org.freedesktop.portal.Notification` `AddNotification` call.
#[derive(Eq, Hash, Copy, Clone, Debug, PartialEq, Structural)]
pub enum Priority {
    /// Background, unimportant.
    Low,
    /// Ordinary notification, the default priority level.
    Normal,
    /// Needs attention soon.
    High,
    /// Requires immediate action.
    Urgent,
}

/// The priority an urgency maps to: critical urgency is urgent priority.
pub open spec fn priority_of_urgency(u: Urgency) -> Priority {
    match u {
        Urgency::Low => Priority::Low,
        Urgency::Normal => Priority::Normal,
        Urgency::Critical => Priority::Urgent,
    }
}

/// The name a priority has on the wire.
pub open spec fn priority_name(p: Priority) -> Seq<char> {
    match p {
        Priority::Low => "low"@,
        Priority::Normal => "normal"@,
        Priority::High => "high"@,
        Priority::Urgent => "urgent"@,
    }
}

impl Priority {
    /// The priority that an urgency maps to.
    pub fn from_urgency(urgency: Urgency) -> (p: Priority)
        ensures
            p == priority_of_urgency(urgency),
    {
        match urgency {
            Urgency::Low => Priority::Low,
            Urgency::Normal => Priority::Normal,
            Urgency::Critical => Priority::Urgent,
        }
    }

    /// The name of this priority on the wire.
    pub fn as_str(&self) -> (r: &'static str)
        ensures
            r@ == priority_name(*self),
    {
        match self {
            Priority::Low => "low",
            Priority::Normal => "normal",
            Priority::High => "high",
            Priority::Urgent => "urgent",
        }
    }

    /// The name of this priority as an owned string (what `Display` shows).
    pub fn to_string(&self) -> (r: String)
        ensures
            r@ == priority_name(*self),
    {
        owned(self.as_str())
    }
}

} // verus!
