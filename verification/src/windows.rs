//! How a notification becomes a Windows toast, and how the toast's events
//! become the library's answers.
use vstd::prelude::*;

use crate::notification::{copy_text, flat_of_actions, text_view, Notification};
use crate::text::owned;
use crate::timeout::Timeout;
use crate::urgency::Urgency;

verus! {

/// Reason why a toast closed.
#[derive(Copy, Clone, Debug, PartialEq, Eq, Structural)]
pub enum CloseReason {
    /// The toast timed out.
    Expired,
    /// The user dismissed it.
    Dismissed,
    /// The application hid it.
    CloseAction,
    /// No reason was given.
    Other,
}

/// The reason a toast reports for its dismissal.
#[derive(Copy, Clone, Debug, PartialEq, Eq, Structural)]
pub enum DismissalReason {
    /// The user canceled the toast.
    UserCanceled,
    /// The application hid the toast.
    ApplicationHidden,
    /// The toast timed out.
    TimedOut,
}

/// The close reason for a reported dismissal reason, if one was reported.
pub open spec fn close_reason_of_dismissal(reason: Option<DismissalReason>) -> CloseReason {
    match reason {
        Some(DismissalReason::TimedOut) => CloseReason::Expired,
        Some(DismissalReason::UserCanceled) => CloseReason::Dismissed,
        Some(DismissalReason::ApplicationHidden) => CloseReason::CloseAction,
        None => CloseReason::Other,
    }
}

impl CloseReason {
    /// Maps a reported dismissal reason to a close reason.
    pub fn from_dismissal(reason: Option<DismissalReason>) -> (r: CloseReason)
        ensures
            r == close_reason_of_dismissal(reason),
    {
        match reason {
            Some(DismissalReason::TimedOut) => CloseReason::Expired,
            Some(DismissalReason::UserCanceled) => CloseReason::Dismissed,
            Some(DismissalReason::ApplicationHidden) => CloseReason::CloseAction,
            None => CloseReason::Other,
        }
    }
}

/// What a toast reports.
#[derive(Clone, Debug)]
pub enum ToastEvent {
    /// The toast was activated, through a button carrying this argument or
    /// through its body.
    Activated(Option<String>),
    /// The toast was dismissed.
    Dismissed(CloseReason),
}

/// The name the invocation callback receives for an event, `None` standing
/// for a closed channel: the button's argument, `"default"` for the body,
/// `"__closed"` otherwise.
pub open spec fn toast_invocation(event: Option<ToastEvent>) -> Seq<char> {
    match event {
        Some(ToastEvent::Activated(Some(action))) => action@,
        Some(ToastEvent::Activated(None)) => "default"@,
        Some(ToastEvent::Dismissed(_)) => "__closed"@,
        None => "__closed"@,
    }
}

/// The name passed to the invocation callback for the first event of a
/// toast; `None` when no event came.
pub fn invocation_for_event(event: Option<ToastEvent>) -> (r: String)
    ensures
        r@ == toast_invocation(event),
{
    match event {
        Some(ToastEvent::Activated(Some(action))) => action,
        Some(ToastEvent::Activated(None)) => owned("default"),
        Some(ToastEvent::Dismissed(_)) => owned("__closed"),
        None => owned("__closed"),
    }
}

impl ToastEvent {
    /// The reason handed to a close handler: waiting goes on past
    /// activations and stops at the first dismissal.
    pub fn close_reason(&self) -> (r: Option<CloseReason>)
        ensures
            r == (match self {
                ToastEvent::Activated(_) => None,
                ToastEvent::Dismissed(reason) => Some(*reason),
            }),
    {
        match self {
            ToastEvent::Activated(_) => None,
            ToastEvent::Dismissed(reason) => Some(*reason),
        }
    }
}

/// How long a toast stays.
#[derive(Copy, Clone, Debug, PartialEq, Eq, Structural)]
pub enum ToastDuration {
    /// The short duration.
    Short,
    /// The long duration.
    Long,
}

/// The duration for a timeout: long when the notification never expires or
/// lasts 25 seconds or more, short otherwise.
pub open spec fn duration_of(timeout: Timeout) -> ToastDuration {
    match timeout {
        Timeout::Default => ToastDuration::Short,
        Timeout::Never => ToastDuration::Long,
        Timeout::Milliseconds(t) => if t >= 25000 { ToastDuration::Long } else { ToastDuration::Short },
    }
}

/// The toast duration for a notification's timeout.
pub fn toast_duration(timeout: Timeout) -> (r: ToastDuration)
    ensures
        r == duration_of(timeout),
{
    match timeout {
        Timeout::Default => ToastDuration::Short,
        Timeout::Never => ToastDuration::Long,
        Timeout::Milliseconds(t) => if t >= 25000 {
            ToastDuration::Long
        } else {
            ToastDuration::Short
        },
    }
}

/// How a toast behaves on screen.
#[derive(Copy, Clone, Debug, PartialEq, Eq, Structural)]
pub enum ToastScenario {
    /// Standard toast behaviour.
    Default,
    /// Stays on screen until the user dismisses it.
    Reminder,
}

/// The toast scenario for a notification's urgency: a reminder for a
/// critical one, the default otherwise.
pub fn toast_scenario(urgency: Option<Urgency>) -> (r: ToastScenario)
    ensures
        r == (if urgency == Some(Urgency::Critical) { ToastScenario::Reminder } else { ToastScenario::Default }),
{
    match urgency {
        Some(Urgency::Critical) => ToastScenario::Reminder,
        _ => ToastScenario::Default,
    }
}

/// The buttons of a toast for a flat `[argument, label, ...]` list of
/// actions: one `(label, argument)` per complete pair, in order; a trailing
/// single entry is left out.
pub open spec fn toast_buttons_of(actions: Seq<Seq<char>>) -> Seq<(Seq<char>, Seq<char>)> {
    Seq::new(actions.len() / 2, |k: int| (actions[2 * k + 1], actions[2 * k]))
}

/// The buttons of a toast, as `(label, argument)` pairs.
pub fn toast_buttons(actions: &[String]) -> (r: Vec<(String, String)>)
    ensures
        r@.map_values(|p: (String, String)| (p.0@, p.1@)) == toast_buttons_of(
            actions@.map_values(|s: String| s@),
        ),
{
    let ghost all = actions@.map_values(|s: String| s@);
    let mut buttons: Vec<(String, String)> = Vec::new();
    let mut i: usize = 0;
    while i + 1 < actions.len()
        invariant
            i <= actions.len(),
            i % 2 == 0,
            all == actions@.map_values(|s: String| s@),
            buttons@.len() == i / 2,
            forall|k: int|
                0 <= k < buttons@.len() ==> (#[trigger] buttons@[k]).0@ == all[2 * k + 1] && buttons@[k].1@ == all[2
                    * k],
        decreases actions.len() - i,
    {
        let label = actions[i + 1].clone();
        let argument = actions[i].clone();
        buttons.push((label, argument));
        i = i + 2;
    }
    let ghost out = buttons@.map_values(|p: (String, String)| (p.0@, p.1@));
    assert(out =~= toast_buttons_of(all));
    buttons
}

/// Everything a toast is built from.
#[derive(Debug)]
pub struct ToastRequest {
    /// The application user model id it is shown under.
    pub app_id: String,
    /// The title line.
    pub title: String,
    /// The first text line.
    pub text1: String,
    /// The second text line.
    pub text2: String,
    /// The name of the sound to play, if one was chosen.
    pub sound: Option<String>,
    /// How long it stays.
    pub duration: ToastDuration,
    /// How it behaves on screen.
    pub scenario: ToastScenario,
    /// An image to show.
    pub image_path: Option<String>,
    /// Its buttons, as `(label, argument)` pairs.
    pub buttons: Vec<(String, String)>,
}

impl Notification {
    /// The toast for a notification: shown under its application id (the
    /// given default, such as the PowerShell id that the toast API offers,
    /// when it has none), with the summary as title, the
    /// subtitle (or nothing) and the body as text lines, its sound, the
    /// duration of its timeout, the scenario of its urgency, its image and a
    /// button for each action.
    pub fn toast_request(&self, default_app_id: &str) -> (r: ToastRequest)
        ensures
            r.app_id@ == (match self@.app_id {
                Some(a) => a,
                None => default_app_id@,
            }),
            r.title@ == self@.summary,
            r.text1@ == (match self@.subtitle {
                Some(s) => s,
                None => Seq::<char>::empty(),
            }),
            r.text2@ == self@.body,
            text_view(r.sound) == self@.sound_name,
            r.duration == duration_of(self@.timeout),
            r.scenario == (if self@.urgency == Some(Urgency::Critical) {
                ToastScenario::Reminder
            } else {
                ToastScenario::Default
            }),
            text_view(r.image_path) == self@.image_path,
            r.buttons@.map_values(|p: (String, String)| (p.0@, p.1@)) == toast_buttons_of(
                flat_of_actions(self@.actions),
            ),
    {
        proof {
            self.lemma_mac_fields_view();
        }
        let flat = self.actions_xdg_strings();
        let buttons = toast_buttons(flat.as_slice());
        ToastRequest {
            app_id: match &self.app_id {
                Some(a) => a.clone(),
                None => owned(default_app_id),
            },
            title: self.summary.clone(),
            text1: match &self.subtitle {
                Some(s) => s.clone(),
                None => String::new(),
            },
            text2: self.body.clone(),
            sound: copy_text(&self.sound_name),
            duration: toast_duration(self.timeout),
            scenario: toast_scenario(self.urgency),
            image_path: copy_text(&self.path_to_image),
            buttons,
        }
    }
}

} // verus!
