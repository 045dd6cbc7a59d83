//! How the answers of macOS notification centers become the library's
//! responses.
use vstd::prelude::*;

use crate::action::{Action, ActionKind, ActionKindView, ActionView, UserResponse};
use crate::interruption_level::InterruptionLevel;
use crate::notification::{action_views, copy_text, flat_of_actions, Notification};
use crate::timeout::Timeout;
use crate::xdg::{NotificationId, NotificationIdView};
use crate::text::{decimal_text, owned, str_eq, u32_text};

verus! {

/// Reason why a notification closed.
#[derive(Copy, Clone, Debug, PartialEq, Eq, Structural)]
pub enum CloseReason {
    /// The notification expired.
    Expired,
    /// The user dismissed the notification.
    Dismissed,
    /// The notification was closed because the user clicked an action.
    CloseAction,
    /// The platform did not expose a more specific reason.
    Other(u32),
}

/// Response to a macOS notification.
#[derive(Clone, Debug)]
pub enum ActionResponse {
    /// Custom action configured by the notification.
    Custom(String),
    /// The notification was closed.
    Closed(CloseReason),
}

/// The abstract value of an [`ActionResponse`].
pub enum ActionResponseView {
    Custom(Seq<char>),
    Closed(CloseReason),
}

impl View for ActionResponse {
    type V = ActionResponseView;

    open spec fn view(&self) -> ActionResponseView {
        match self {
            ActionResponse::Custom(a) => ActionResponseView::Custom(a@),
            ActionResponse::Closed(r) => ActionResponseView::Closed(*r),
        }
    }
}

/// What the legacy notification center reports after showing a notification.
#[derive(Clone, Debug)]
pub enum MacResponse {
    /// Nothing: the notification went away on its own.
    Nothing,
    /// An action button with this title was clicked.
    ActionButton(String),
    /// The close button with this title was clicked.
    CloseButton(String),
    /// The notification body was clicked.
    Click,
    /// The user replied with this text.
    Reply(String),
}

/// The identifier paired with the first label equal to `label` in a flat
/// `[identifier, label, identifier, label, ...]` list; the label itself when
/// no complete pair has it.
pub open spec fn identifier_for_label(label: Seq<char>, actions: Seq<Seq<char>>) -> Seq<char>
    decreases actions.len(),
{
    if actions.len() < 2 {
        label
    } else if actions[1] == label {
        actions[0]
    } else {
        identifier_for_label(label, actions.subrange(2, actions.len() as int))
    }
}

/// The views of a list of strings.
pub open spec fn string_views(s: Seq<String>) -> Seq<Seq<char>> {
    s.map_values(|x: String| x@)
}

/// The response a report of the legacy notification center becomes: a click
/// is the `"default"` action, a button or a reply is the action identifier
/// of its title, the close button dismisses and no answer means it expired.
pub open spec fn mapped_response(response: MacResponse, actions: Seq<Seq<char>>) -> ActionResponseView {
    match response {
        MacResponse::Click => ActionResponseView::Custom("default"@),
        MacResponse::ActionButton(label) => ActionResponseView::Custom(identifier_for_label(label@, actions)),
        MacResponse::Reply(label) => ActionResponseView::Custom(identifier_for_label(label@, actions)),
        MacResponse::CloseButton(_) => ActionResponseView::Closed(CloseReason::Dismissed),
        MacResponse::Nothing => ActionResponseView::Closed(CloseReason::Expired),
    }
}

/// Maps a reported button title back to the identifier it was configured
/// with, looking through the `[identifier, label, ...]` pairs in order.
pub fn action_identifier_for_label(action: &str, actions: &[String]) -> (r: String)
    ensures
        r@ == identifier_for_label(action@, string_views(actions@)),
{
    let ghost all = string_views(actions@);
    let mut i: usize = 0;
    assert(all.subrange(0, all.len() as int) =~= all);
    while i + 1 < actions.len()
        invariant
            i <= actions.len(),
            i % 2 == 0,
            all == string_views(actions@),
            identifier_for_label(action@, all) == identifier_for_label(
                action@,
                all.subrange(i as int, all.len() as int),
            ),
        decreases actions.len() - i,
    {
        let ghost rest = all.subrange(i as int, all.len() as int);
        assert(rest[1] == actions@[i + 1]@);
        if str_eq(actions[i + 1].as_str(), action) {
            assert(rest[0] == actions@[i as int]@);
            return actions[i].clone();
        }
        assert(rest.subrange(2, rest.len() as int) =~= all.subrange(i + 2, all.len() as int));
        i = i + 2;
    }
    owned(action)
}

/// Maps the legacy notification center's report into the library's action
/// model.
pub fn map_response(response: MacResponse, actions: &[String]) -> (r: ActionResponse)
    ensures
        r@ == mapped_response(response, string_views(actions@)),
{
    match response {
        MacResponse::Click => ActionResponse::Custom(owned("default")),
        MacResponse::ActionButton(label) => ActionResponse::Custom(action_identifier_for_label(label.as_str(), actions)),
        MacResponse::Reply(label) => ActionResponse::Custom(action_identifier_for_label(label.as_str(), actions)),
        MacResponse::CloseButton(_) => ActionResponse::Closed(CloseReason::Dismissed),
        MacResponse::Nothing => ActionResponse::Closed(CloseReason::Expired),
    }
}

/// The response for the outcome of sending to the legacy notification
/// center: its report mapped through the actions, or a close for an
/// unspecified reason when the send failed.
pub open spec fn sent_response(sent: Result<MacResponse, Seq<char>>, actions: Seq<Seq<char>>) -> ActionResponseView {
    match sent {
        Ok(response) => mapped_response(response, actions),
        Err(_) => ActionResponseView::Closed(CloseReason::Other(0)),
    }
}

/// The single response a notification shown through the legacy
/// notification center delivers, for the outcome of sending it (the
/// report, or the failure's message).
pub fn response_for_send(sent: Result<MacResponse, String>, actions: &[String]) -> (r: ActionResponse)
    ensures
        r@ == sent_response(
            match sent {
                Ok(m) => Ok(m),
                Err(e) => Err(e@),
            },
            string_views(actions@),
        ),
{
    match sent {
        Ok(response) => map_response(response, actions),
        Err(_) => ActionResponse::Closed(CloseReason::Other(0)),
    }
}

/// The request the legacy notification center is sent for a notification.
#[derive(Debug)]
pub struct LegacyRequest {
    /// The title.
    pub title: String,
    /// The message.
    pub message: String,
    /// The subtitle.
    pub subtitle: Option<String>,
    /// The sound to play.
    pub sound: Option<String>,
    /// An image to show.
    pub image_path: Option<String>,
    /// The actions as a flat `[identifier, label, ...]` list, through which
    /// the center's report is mapped back.
    pub actions: Vec<String>,
}

impl Notification {
    /// The request sent to the legacy notification center: summary as
    /// title, body as message, the subtitle, the sound name, the image path
    /// and the actions' identifiers and labels.
    pub fn legacy_request(&self) -> (r: LegacyRequest)
        ensures
            r.title@ == self@.summary,
            r.message@ == self@.body,
            opt_text(r.subtitle) == self@.subtitle,
            opt_text(r.sound) == self@.sound_name,
            opt_text(r.image_path) == self@.image_path,
            string_views(r.actions@) == flat_of_actions(self@.actions),
    {
        proof {
            self.lemma_mac_fields_view();
        }
        let actions = self.actions_xdg_strings();
        assert(string_views(actions@) =~= actions@.map_values(|s: String| s@));
        LegacyRequest {
            title: self.summary.clone(),
            message: self.body.clone(),
            subtitle: copy_text(&self.subtitle),
            sound: copy_text(&self.sound_name),
            image_path: copy_text(&self.path_to_image),
            actions,
        }
    }
}

/// The name the invocation callback receives for a report of the legacy
/// notification center when it is waited on directly: the identifier of a
/// clicked button (found by its title among the `[identifier, label, ...]`
/// pairs, the title itself when no label matches), the reply text,
/// `"default"` for a click, `"__closed"` otherwise.
pub open spec fn direct_invocation(response: MacResponse, actions: Seq<Seq<char>>) -> Seq<char> {
    match response {
        MacResponse::ActionButton(label) => identifier_for_label(label@, actions),
        MacResponse::Click => "default"@,
        MacResponse::Reply(text) => text@,
        MacResponse::CloseButton(_) => "__closed"@,
        MacResponse::Nothing => "__closed"@,
    }
}

/// The name passed to the invocation callback for a report that was waited
/// on directly; a failed send counts as no answer.
pub fn direct_invocation_name(response: &MacResponse, actions: &[String]) -> (r: String)
    ensures
        r@ == direct_invocation(*response, string_views(actions@)),
{
    match response {
        MacResponse::ActionButton(label) => action_identifier_for_label(label.as_str(), actions),
        MacResponse::Click => owned("default"),
        MacResponse::Reply(text) => text.clone(),
        MacResponse::CloseButton(_) => owned("__closed"),
        MacResponse::Nothing => owned("__closed"),
    }
}

impl ActionResponse {
    /// The name passed to the invocation callback: the action, or
    /// `"__closed"` when the notification was closed.
    pub fn invocation_name(&self) -> (r: &str)
        ensures
            r@ == (match self@ {
                ActionResponseView::Custom(a) => a,
                ActionResponseView::Closed(_) => "__closed"@,
            }),
    {
        match self {
            ActionResponse::Custom(a) => a.as_str(),
            ActionResponse::Closed(_) => "__closed",
        }
    }

    /// The reason handed to a close handler: only a closed notification has
    /// one.
    pub fn close_reason(&self) -> (r: Option<CloseReason>)
        ensures
            r == (match self@ {
                ActionResponseView::Custom(_) => None,
                ActionResponseView::Closed(reason) => Some(reason),
            }),
    {
        match self {
            ActionResponse::Custom(_) => None,
            ActionResponse::Closed(reason) => Some(*reason),
        }
    }
}

/// Why the current notification center closed a notification.
#[derive(Copy, Clone, Debug, PartialEq, Eq, Structural)]
pub enum CenterCloseReason {
    /// The user dismissed it.
    Dismissed,
    /// It expired.
    Expired,
}

/// The library's close reason for a reason of the current notification
/// center.
pub fn close_reason_from_center(reason: CenterCloseReason) -> (r: crate::action::CloseReason)
    ensures
        r == (match reason {
            CenterCloseReason::Dismissed => crate::action::CloseReason::Dismissed,
            CenterCloseReason::Expired => crate::action::CloseReason::Expired,
        }),
{
    match reason {
        CenterCloseReason::Dismissed => crate::action::CloseReason::Dismissed,
        CenterCloseReason::Expired => crate::action::CloseReason::Expired,
    }
}

/// Maps a report of the current notification center (whether it is the
/// dismiss action, the reply text if any, the action identifier) to the
/// cross-platform response.
pub fn user_response_from_center(is_dismiss: bool, reply_text: Option<String>, action_identifier: String) -> (r:
    UserResponse)
    ensures
        is_dismiss ==> r == UserResponse::Closed(crate::action::CloseReason::Dismissed),
        !is_dismiss && reply_text is Some ==> (r matches UserResponse::Reply(t) && t@ == reply_text->0@),
        !is_dismiss && reply_text is None ==> (r matches UserResponse::Action(a) && a@ == action_identifier@),
{
    if is_dismiss {
        UserResponse::Closed(crate::action::CloseReason::Dismissed)
    } else {
        match reply_text {
            Some(text) => UserResponse::Reply(text),
            None => UserResponse::Action(action_identifier),
        }
    }
}

/// An action as the current notification center takes it: a reply action
/// carries its submit-button title and placeholder.
#[derive(Debug)]
pub struct CenterAction {
    /// The identifier reported back.
    pub id: String,
    /// The label shown.
    pub label: String,
    /// For a reply action, the submit-button title and the placeholder.
    pub reply: Option<(String, String)>,
    /// Whether the user must authenticate first.
    pub requires_authentication: bool,
}

/// The action of the library that a center action stands for.
pub open spec fn center_action_view(a: CenterAction) -> ActionView {
    ActionView {
        id: a.id@,
        label: a.label@,
        kind: match a.reply {
            Some(r) => ActionKindView::Reply { button_title: r.0@, placeholder: r.1@ },
            None => ActionKindView::Button,
        },
        requires_authentication: a.requires_authentication,
    }
}

/// The request the current notification center is sent for a notification.
#[derive(Debug)]
pub struct CenterRequest {
    /// The title.
    pub title: String,
    /// The message.
    pub message: String,
    /// The subtitle.
    pub subtitle: Option<String>,
    /// The sound to play.
    pub sound: Option<String>,
    /// The actions, in order.
    pub actions: Vec<CenterAction>,
    /// Milliseconds after which it goes away, if set.
    pub timeout_ms: Option<u64>,
    /// An image to show.
    pub image_path: Option<String>,
    /// The identifier that replaces an earlier notification.
    pub id: Option<String>,
    /// How far it may break through focus settings.
    pub interruption_level: Option<InterruptionLevel>,
    /// The thread it is grouped in.
    pub thread_id: Option<String>,
}

/// The view of an optional string.
pub open spec fn opt_text(s: Option<String>) -> Option<Seq<char>> {
    match s {
        Some(t) => Some(t@),
        None => None,
    }
}

/// The identifier text of a notification id: a numeric id in decimal, a
/// string id as it is.
pub open spec fn id_text(id: NotificationIdView) -> Seq<char> {
    match id {
        NotificationIdView::Global(n) => decimal_text(n as nat),
        NotificationIdView::Portal(s) => s,
    }
}

fn center_action(a: &Action) -> (r: CenterAction)
    ensures
        center_action_view(r) == a@,
{
    proof {
        a.lemma_view();
    }
    let reply = match &a.kind {
        ActionKind::Reply { button_title, placeholder } => Some((button_title.clone(), placeholder.clone())),
        ActionKind::Button => None,
    };
    CenterAction { id: a.id.clone(), label: a.label.clone(), reply, requires_authentication: a.requires_authentication }
}

impl Notification {
    /// The request sent to the current macOS notification center: summary as
    /// title, body as message, the subtitle, the sound name, every action
    /// with its kind, a timeout in milliseconds as the timeout, the image
    /// path, the id as text, and the interruption level and thread. Hints
    /// have no part in it.
    pub fn center_request(&self) -> (r: CenterRequest)
        requires
            self.wf(),
        ensures
            r.title@ == self@.summary,
            r.message@ == self@.body,
            opt_text(r.subtitle) == self@.subtitle,
            opt_text(r.sound) == self@.sound_name,
            r.actions@.map_values(|a: CenterAction| center_action_view(a)) == self@.actions,
            r.timeout_ms == (match self@.timeout {
                Timeout::Milliseconds(ms) => Some(ms as u64),
                _ => None,
            }),
            opt_text(r.image_path) == self@.image_path,
            opt_text(r.id) == (match self@.id {
                Some(i) => Some(id_text(i)),
                None => None,
            }),
            r.interruption_level == self@.interruption_level,
            opt_text(r.thread_id) == self@.thread_id,
    {
        proof {
            self.lemma_hints_view();
            self.lemma_actions_view();
            self.lemma_mac_fields_view();
        }
        let ghost acts = action_views(self.actions@);
        let mut actions: Vec<CenterAction> = Vec::new();
        let mut i: usize = 0;
        while i < self.actions.len()
            invariant
                i <= self.actions.len(),
                acts == action_views(self.actions@),
                actions@.len() == i,
                forall|k: int| 0 <= k < i ==> center_action_view(#[trigger] actions@[k]) == acts[k],
            decreases self.actions.len() - i,
        {
            actions.push(center_action(&self.actions[i]));
            i = i + 1;
        }
        assert(actions@.map_values(|a: CenterAction| center_action_view(a)) =~= acts);
        let timeout_ms = match self.timeout {
            Timeout::Milliseconds(ms) => Some(ms as u64),
            _ => None,
        };
        let id = match &self.id {
            Some(NotificationId::Global(n)) => Some(u32_text(*n)),
            Some(NotificationId::Portal(s)) => Some(s.clone()),
            None => None,
        };
        CenterRequest {
            title: self.summary.clone(),
            message: self.body.clone(),
            subtitle: match &self.subtitle {
                Some(s) => Some(s.clone()),
                None => None,
            },
            sound: copy_text(&self.sound_name),
            actions,
            timeout_ms,
            image_path: copy_text(&self.path_to_image),
            id,
            interruption_level: self.interruption_level,
            thread_id: match &self.thread_id {
                Some(t) => Some(t.clone()),
                None => None,
            },
        }
    }
}

} // verus!
