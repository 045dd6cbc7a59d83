//! Cross-platform action and response types.
//!
//! [`Action`] attaches buttons or inline-reply inputs to a notification before
//! it is shown; [`UserResponse`] and [`ActionResponse`] describe what the user
//! did after the notification appeared.
use vstd::prelude::*;

use crate::text::{owned, str_eq};

verus! {

/// The kind of action stored inside an [`Action`].
#[derive(Clone, Debug, PartialEq, Eq)]
pub enum ActionKind {
    /// A plain button.
    Button,
    /// A text-input reply action (a plain button where the platform has none).
    Reply {
        /// Label on the submit button (e.g. `"Send"`).
        button_title: String,
        /// Placeholder hint shown inside the empty input field.
        placeholder: String,
    },
}

/// The abstract value of an [`ActionKind`].
pub enum ActionKindView {
    /// A plain button.
    Button,
    /// A reply input with its submit-button title and placeholder.
    Reply { button_title: Seq<char>, placeholder: Seq<char> },
}

impl View for ActionKind {
    type V = ActionKindView;

    open spec fn view(&self) -> ActionKindView {
        match self {
            ActionKind::Button => ActionKindView::Button,
            ActionKind::Reply { button_title, placeholder } => ActionKindView::Reply {
                button_title: button_title@,
                placeholder: placeholder@,
            },
        }
    }
}

/// A notification action: a button or inline-reply input shown alongside the
/// notification.
#[derive(Clone, Debug, PartialEq, Eq)]
pub struct Action {
    pub(crate) id: String,
    pub(crate) label: String,
    pub(crate) kind: ActionKind,
    pub(crate) requires_authentication: bool,
}

/// The abstract value of an [`Action`].
pub struct ActionView {
    /// The identifier reported back when the action is invoked.
    pub id: Seq<char>,
    /// The label shown to the user.
    pub label: Seq<char>,
    /// Button or reply input.
    pub kind: ActionKindView,
    /// Whether the platform asks for authentication first.
    pub requires_authentication: bool,
}

impl View for Action {
    type V = ActionView;

    closed spec fn view(&self) -> ActionView {
        ActionView {
            id: self.id@,
            label: self.label@,
            kind: self.kind@,
            requires_authentication: self.requires_authentication,
        }
    }
}

/// A plain button with the given identifier and label.
pub open spec fn button_view(id: Seq<char>, label: Seq<char>) -> ActionView {
    ActionView { id, label, kind: ActionKindView::Button, requires_authentication: false }
}

impl Action {
    /// The view of an action is made of its fields.
    pub(crate) proof fn lemma_view(&self)
        ensures
            self@ == (ActionView {
                id: self.id@,
                label: self.label@,
                kind: self.kind@,
                requires_authentication: self.requires_authentication,
            }),
    {
    }

    /// Create a plain button action.
    pub fn button(id: &str, label: &str) -> (a: Action)
        ensures
            a@ == button_view(id@, label@),
    {
        Action { id: owned(id), label: owned(label), kind: ActionKind::Button, requires_authentication: false }
    }

    /// Create a text-input reply action; the submit button is labelled
    /// `"Reply"` and the text field has no placeholder.
    pub fn reply(id: &str, label: &str) -> (a: Action)
        ensures
            a@ == (ActionView {
                id: id@,
                label: label@,
                kind: ActionKindView::Reply { button_title: "Reply"@, placeholder: Seq::empty() },
                requires_authentication: false,
            }),
    {
        Action {
            id: owned(id),
            label: owned(label),
            kind: ActionKind::Reply { button_title: owned("Reply"), placeholder: String::new() },
            requires_authentication: false,
        }
    }

    /// Create a text-input reply action with explicit submit-button title and
    /// placeholder text.
    pub fn reply_with(id: &str, label: &str, button_title: &str, placeholder: &str) -> (a: Action)
        ensures
            a@ == (ActionView {
                id: id@,
                label: label@,
                kind: ActionKindView::Reply { button_title: button_title@, placeholder: placeholder@ },
                requires_authentication: false,
            }),
    {
        Action {
            id: owned(id),
            label: owned(label),
            kind: ActionKind::Reply { button_title: owned(button_title), placeholder: owned(placeholder) },
            requires_authentication: false,
        }
    }

    /// A copy of this action.
    pub fn duplicate(&self) -> (a: Action)
        ensures
            a@ == self@,
    {
        Action {
            id: self.id.clone(),
            label: self.label.clone(),
            kind: match &self.kind {
                ActionKind::Button => ActionKind::Button,
                ActionKind::Reply { button_title, placeholder } => ActionKind::Reply {
                    button_title: button_title.clone(),
                    placeholder: placeholder.clone(),
                },
            },
            requires_authentication: self.requires_authentication,
        }
    }

    /// Require authentication before the action fires.
    pub fn requires_authentication(self) -> (a: Action)
        ensures
            a@ == (ActionView { requires_authentication: true, ..self@ }),
    {
        let mut s = self;
        s.requires_authentication = true;
        s
    }

    /// The action's identifier.
    pub fn id(&self) -> (r: &str)
        ensures
            r@ == self@.id,
    {
        self.id.as_str()
    }

    /// The action's display label.
    pub fn label(&self) -> (r: &str)
        ensures
            r@ == self@.label,
    {
        self.label.as_str()
    }

    /// Returns `true` if this is a reply (text-input) action.
    pub fn is_reply(&self) -> (r: bool)
        ensures
            r == (self@.kind is Reply),
    {
        match self.kind {
            ActionKind::Reply { .. } => true,
            ActionKind::Button => false,
        }
    }
}

/// Reason a notification was closed without an action being invoked.
#[non_exhaustive]
#[derive(Copy, Clone, Debug, PartialEq, Eq, Hash, Structural)]
pub enum CloseReason {
    /// The notification expired (timed out).
    Expired,
    /// The notification was dismissed by the user.
    Dismissed,
    /// The notification was closed programmatically.
    CloseAction,
    /// An unrecognized or reserved reason was reported by the platform.
    Other,
}

/// The close reason that a raw XDG reason code stands for.
pub open spec fn close_reason_of(raw_reason: u32) -> CloseReason {
    if raw_reason == 1 {
        CloseReason::Expired
    } else if raw_reason == 2 {
        CloseReason::Dismissed
    } else if raw_reason == 3 {
        CloseReason::CloseAction
    } else {
        CloseReason::Other
    }
}

impl CloseReason {
    /// The XDG reason code sent for a close reason; `4`, the specification's
    /// undefined reason, for `Other`.
    pub fn code(&self) -> (r: u32)
        ensures
            r == (match *self {
                CloseReason::Expired => 1u32,
                CloseReason::Dismissed => 2u32,
                CloseReason::CloseAction => 3u32,
                CloseReason::Other => 4u32,
            }),
            close_reason_of(r) == *self,
    {
        match *self {
            CloseReason::Expired => 1,
            CloseReason::Dismissed => 2,
            CloseReason::CloseAction => 3,
            CloseReason::Other => 4,
        }
    }

    /// Maps a raw XDG reason code to a close reason.
    pub fn from_u32(raw_reason: u32) -> (r: CloseReason)
        ensures
            r == close_reason_of(raw_reason),
    {
        match raw_reason {
            1 => CloseReason::Expired,
            2 => CloseReason::Dismissed,
            3 => CloseReason::CloseAction,
            _ => CloseReason::Other,
        }
    }
}

/// The response to a notification: every possible outcome of showing one.
#[derive(Clone, Debug, PartialEq, Eq, Hash)]
pub enum UserResponse {
    /// The user clicked the notification body or a labelled action button.
    Action(String),
    /// The user submitted an inline text reply.
    Reply(String),
    /// The notification was closed or dismissed without an action being taken.
    Closed(CloseReason),
}

impl UserResponse {
    /// Returns `true` if this is an `Action` with the key `"default"`, which
    /// conventionally means the notification body was clicked.
    pub fn is_default_action(&self) -> (r: bool)
        ensures
            r == (self matches UserResponse::Action(key) && key@ == "default"@),
    {
        match self {
            UserResponse::Action(key) => str_eq(key.as_str(), "default"),
            _ => false,
        }
    }
}

/// The response from the user after a notification was shown.
#[derive(Clone, Debug, PartialEq, Eq, Hash)]
pub enum ActionResponse {
    /// The user clicked the notification body or a labelled action button.
    Action(String),
    /// The user submitted an inline text reply.
    Reply(String),
    /// The notification was closed without any action being taken.
    Closed(CloseReason),
}

impl ActionResponse {
    /// Returns `true` if this is an `Action` with the key `"default"`.
    pub fn is_default_action(&self) -> (r: bool)
        ensures
            r == (self matches ActionResponse::Action(key) && key@ == "default"@),
    {
        match self {
            ActionResponse::Action(key) => str_eq(key.as_str(), "default"),
            _ => false,
        }
    }

    /// An action response carrying the given action key.
    pub fn from_key(key: &str) -> (r: ActionResponse)
        ensures
            r matches ActionResponse::Action(k) && k@ == key@,
    {
        ActionResponse::Action(owned(key))
    }
}

} // verus!
