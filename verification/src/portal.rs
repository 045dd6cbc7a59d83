//! Notifications for the XDG desktop portal
//! (`org.freedesktop.portal.Notification`), for sandboxed environments, and
//! the conversion of a classic notification into one.
use vstd::prelude::*;

use crate::action::ActionView;
use crate::hints::{Hint, HintView};
use crate::notification::{action_views, hint_views, Notification};
use crate::priority::{priority_of_urgency, Priority};
use crate::text::{owned, str_eq};

verus! {

/// A file descriptor that an icon is read from.
#[verifier::external_type_specification]
#[verifier::external_body]
pub struct ExOwnedFd(zvariant::OwnedFd);

/// An icon of a portal notification.
#[derive(Debug)]
pub enum Icon {
    /// Icon names looked up in the current icon theme.
    Themed(Vec<String>),
    /// An icon read from an open file.
    File(zvariant::OwnedFd),
}

/// The abstract value of an [`Icon`].
pub enum IconView {
    Themed(Seq<Seq<char>>),
    File,
}

impl View for Icon {
    type V = IconView;

    open spec fn view(&self) -> IconView {
        match self {
            Icon::Themed(names) => IconView::Themed(names@.map_values(|s: String| s@)),
            Icon::File(_) => IconView::File,
        }
    }
}

impl Icon {
    /// A themed icon with the given names.
    pub fn themed(names: Vec<String>) -> (r: Icon)
        ensures
            r@ == IconView::Themed(names@.map_values(|s: String| s@)),
    {
        Icon::Themed(names)
    }

    /// The key under which the icon travels in the portal's dictionary:
    /// `"themed"` for theme names, `"file-descriptor"` for an open file.
    pub fn variant_key(&self) -> (r: &'static str)
        ensures
            r@ == (match self@ {
                IconView::Themed(_) => "themed"@,
                IconView::File => "file-descriptor"@,
            }),
    {
        match self {
            Icon::Themed(_) => "themed",
            Icon::File(_) => "file-descriptor",
        }
    }

    /// A themed icon with one name.
    pub fn themed_one(name: &str) -> (r: Icon)
        ensures
            r@ == IconView::Themed(seq![name@]),
    {
        let mut names: Vec<String> = Vec::new();
        names.push(owned(name));
        assert(names@.map_values(|s: String| s@) =~= seq![name@]);
        Icon::Themed(names)
    }
}

/// An action button of a portal notification.
#[derive(Debug, Clone, PartialEq, Eq)]
pub struct Button {
    /// The action key reported when the button is clicked.
    pub action: String,
    /// The label shown on the button.
    pub label: String,
}

/// The abstract value of a [`Button`]: action key and label.
pub open spec fn button_of(b: &Button) -> (Seq<char>, Seq<char>) {
    (b.action@, b.label@)
}

impl Button {
    /// A button with the given action key and label.
    pub fn new(action: &str, label: &str) -> (b: Button)
        ensures
            button_of(&b) == (action@, label@),
    {
        Button { action: owned(action), label: owned(label) }
    }
}

/// A notification builder for the XDG desktop portal.
#[derive(Debug)]
pub struct PortalNotification {
    /// Notification title (required).
    pub title: String,
    /// Optional body text.
    pub body: Option<String>,
    /// Optional explicit notification ID.
    pub id: Option<String>,
    /// Notification priority.
    pub priority: Option<Priority>,
    /// Optional icon.
    pub icon: Option<Icon>,
    /// Action buttons.
    pub buttons: Vec<Button>,
    /// The default action key, invoked when the notification body is clicked.
    pub default_action: Option<String>,
}

/// The abstract value of a [`PortalNotification`].
pub struct PortalView {
    pub title: Seq<char>,
    pub body: Option<Seq<char>>,
    pub id: Option<Seq<char>>,
    pub priority: Option<Priority>,
    pub icon: Option<IconView>,
    pub buttons: Seq<(Seq<char>, Seq<char>)>,
    pub default_action: Option<Seq<char>>,
}

/// The view of an optional string.
pub open spec fn opt_view(s: Option<String>) -> Option<Seq<char>> {
    match s {
        Some(x) => Some(x@),
        None => None,
    }
}

impl View for PortalNotification {
    type V = PortalView;

    open spec fn view(&self) -> PortalView {
        PortalView {
            title: self.title@,
            body: opt_view(self.body),
            id: opt_view(self.id),
            priority: self.priority,
            icon: match self.icon {
                Some(i) => Some(i@),
                None => None,
            },
            buttons: self.buttons@.map_values(|b: Button| button_of(&b)),
            default_action: opt_view(self.default_action),
        }
    }
}

impl PortalNotification {
    /// A portal notification with the given title and nothing else.
    pub fn new(title: &str) -> (n: PortalNotification)
        ensures
            n@ == (PortalView {
                title: title@,
                body: None,
                id: None,
                priority: None,
                icon: None,
                buttons: Seq::empty(),
                default_action: None,
            }),
    {
        let n = PortalNotification {
            title: owned(title),
            body: None,
            id: None,
            priority: None,
            icon: None,
            buttons: Vec::new(),
            default_action: None,
        };
        assert(n.buttons@.map_values(|b: Button| button_of(&b)) =~= Seq::empty());
        n
    }

    /// Set the body text.
    pub fn body(self, body: &str) -> (n: PortalNotification)
        ensures
            n@ == (PortalView { body: Some(body@), ..self@ }),
    {
        PortalNotification { body: Some(owned(body)), ..self }
    }

    /// Set an explicit notification ID; showing again with the same ID
    /// replaces the notification in place.
    pub fn id(self, id: &str) -> (n: PortalNotification)
        ensures
            n@ == (PortalView { id: Some(id@), ..self@ }),
    {
        PortalNotification { id: Some(owned(id)), ..self }
    }

    /// Set the priority.
    pub fn priority(self, priority: Priority) -> (n: PortalNotification)
        ensures
            n@ == (PortalView { priority: Some(priority), ..self@ }),
    {
        PortalNotification { priority: Some(priority), ..self }
    }

    /// Set a themed icon by name.
    pub fn icon_named(self, name: &str) -> (n: PortalNotification)
        ensures
            n@ == (PortalView { icon: Some(IconView::Themed(seq![name@])), ..self@ }),
    {
        PortalNotification { icon: Some(Icon::themed_one(name)), ..self }
    }

    /// Set the icon directly.
    pub fn icon(self, icon: Icon) -> (n: PortalNotification)
        ensures
            n@ == (PortalView { icon: Some(icon@), ..self@ }),
    {
        PortalNotification { icon: Some(icon), ..self }
    }

    /// Set the icon, or none.
    pub fn maybe_icon(self, icon: Option<Icon>) -> (n: PortalNotification)
        ensures
            n@ == (PortalView {
                icon: match icon {
                    Some(i) => Some(i@),
                    None => None,
                },
                ..self@
            }),
    {
        PortalNotification { icon, ..self }
    }

    /// Add an action button.
    pub fn button(self, button: Button) -> (n: PortalNotification)
        ensures
            n@ == (PortalView { buttons: self@.buttons.push(button_of(&button)), ..self@ }),
    {
        let ghost before = self.buttons@;
        let mut s = self;
        s.buttons.push(button);
        assert(s.buttons@.map_values(|b: Button| button_of(&b)) =~= before.map_values(|b: Button| button_of(&b)).push(
            button_of(&button),
        ));
        s
    }

    /// Set the default action key, invoked when the notification body is clicked.
    pub fn default_action(self, action: &str) -> (n: PortalNotification)
        ensures
            n@ == (PortalView { default_action: Some(action@), ..self@ }),
    {
        PortalNotification { default_action: Some(owned(action)), ..self }
    }
}

/// Whether some urgency hint is in a set of hints.
pub open spec fn has_urgency(hints: Set<HintView>) -> bool {
    exists|u: crate::urgency::Urgency| hints.contains(HintView::Urgency(u))
}

/// Whether some image-path hint is in a set of hints.
pub open spec fn has_image_path(hints: Set<HintView>) -> bool {
    exists|p: Seq<char>| hints.contains(HintView::ImagePath(p))
}

/// The buttons that the actions other than `"default"` become, in order.
pub open spec fn portal_buttons(actions: Seq<ActionView>) -> Seq<(Seq<char>, Seq<char>)> {
    actions.filter(|a: ActionView| a.id != "default"@).map_values(|a: ActionView| (a.id, a.label))
}

/// The default action: `"default"` when some action has that key.
pub open spec fn portal_default_action(actions: Seq<ActionView>) -> Option<Seq<char>> {
    if exists|i: int| 0 <= i < actions.len() && actions[i].id == "default"@ {
        Some("default"@)
    } else {
        None
    }
}

/// Finds the first hint of a list that satisfies one of the two searches.
fn first_urgency(hints: &Vec<Hint>) -> (r: Option<Priority>)
    ensures
        match r {
            Some(p) => exists|u: crate::urgency::Urgency| hint_views(hints@).contains(HintView::Urgency(u)) && p
                == priority_of_urgency(u),
            None => !exists|u: crate::urgency::Urgency| hint_views(hints@).contains(HintView::Urgency(u)),
        },
{
    let ghost views = hint_views(hints@);
    let mut i: usize = 0;
    while i < hints.len()
        invariant
            i <= hints.len(),
            views == hint_views(hints@),
            forall|k: int| 0 <= k < i ==> !(#[trigger] views[k] is Urgency),
        decreases hints.len() - i,
    {
        match &hints[i] {
            Hint::Urgency(u) => {
                assert(views[i as int] == HintView::Urgency(*u));
                return Some(Priority::from_urgency(*u));
            },
            _ => {},
        }
        i = i + 1;
    }
    proof {
        assert forall|u: crate::urgency::Urgency| !views.contains(HintView::Urgency(u)) by {
            if views.contains(HintView::Urgency(u)) {
                let k = choose|k: int| 0 <= k < views.len() && views[k] == HintView::Urgency(u);
                assert(views[k] is Urgency);
            }
        }
    }
    None
}

impl Notification {
    /// The path of an image-path hint, if the notification has one; the
    /// portal shows it as the icon.
    pub fn portal_image_path(&self) -> (r: Option<String>)
        ensures
            match r {
                Some(p) => self@.hints.contains(HintView::ImagePath(p@)),
                None => !has_image_path(self@.hints),
            },
    {
        let ghost views = hint_views(self.hints@);
        proof {
            self.lemma_hints_view();
        }
        let mut i: usize = 0;
        while i < self.hints.len()
            invariant
                i <= self.hints.len(),
                views == hint_views(self.hints@),
                views.to_set() == self@.hints,
                forall|k: int| 0 <= k < i ==> !(#[trigger] views[k] is ImagePath),
            decreases self.hints.len() - i,
        {
            match &self.hints[i] {
                Hint::ImagePath(p) => {
                    assert(views[i as int] == HintView::ImagePath(p@));
                    assert(views.contains(HintView::ImagePath(p@)));
                    return Some(p.clone());
                },
                _ => {},
            }
            i = i + 1;
        }
        proof {
            assert forall|p: Seq<char>| !self@.hints.contains(HintView::ImagePath(p)) by {
                if views.contains(HintView::ImagePath(p)) {
                    let k = choose|k: int| 0 <= k < views.len() && views[k] == HintView::ImagePath(p);
                    assert(views[k] is ImagePath);
                }
            }
        }
        None
    }

    /// Converts this notification into a portal notification. The summary
    /// becomes the title, a non-empty body the body, an urgency hint the
    /// priority, the `"default"` action the default action and every other
    /// action a button. The icon is `opened_image` when the notification has
    /// an image-path hint (the image opened from it, if that worked), else
    /// the themed icon named by a non-empty icon field.
    pub fn portal(self, opened_image: Option<Icon>) -> (p: PortalNotification)
        requires
            self.wf(),
        ensures
            p@.title == self@.summary,
            p@.body == (if self@.body.len() == 0 { None } else { Some(self@.body) }),
            p@.id is None,
            match p@.priority {
                Some(pr) => exists|u: crate::urgency::Urgency| self@.hints.contains(HintView::Urgency(u)) && pr
                    == priority_of_urgency(u),
                None => !has_urgency(self@.hints),
            },
            p@.icon == (if has_image_path(self@.hints) {
                match opened_image {
                    Some(i) => Some(i@),
                    None => None,
                }
            } else if self@.icon.len() > 0 {
                Some(IconView::Themed(seq![self@.icon]))
            } else {
                None
            }),
            p@.buttons == portal_buttons(self@.actions),
            p@.default_action == portal_default_action(self@.actions),
    {
        proof {
            self.lemma_hints_view();
            self.lemma_actions_view();
        }
        let priority = first_urgency(&self.hints);
        let image_path = self.portal_image_path();
        let icon = match image_path {
            Some(_) => opened_image,
            None => if self.icon.as_str().is_empty() {
                None
            } else {
                Some(Icon::themed_one(self.icon.as_str()))
            },
        };
        let ghost acts = action_views(self.actions@);
        let mut default: Option<String> = None;
        let mut buttons: Vec<Button> = Vec::new();
        let mut i: usize = 0;
        while i < self.actions.len()
            invariant
                i <= self.actions.len(),
                acts == action_views(self.actions@),
                buttons@.map_values(|b: Button| button_of(&b)) == portal_buttons(acts.take(i as int)),
                opt_view(default) == portal_default_action(acts.take(i as int)),
            decreases self.actions.len() - i,
        {
            let a = &self.actions[i];
            let ghost before = buttons@;
            proof {
                assert(acts.take(i + 1).drop_last() =~= acts.take(i as int));
                assert(acts.take(i + 1).last() == acts[i as int]);
                assert(acts[i as int] == a@);
                reveal_with_fuel(Seq::filter, 1);
            }
            if str_eq(a.id(), "default") {
                default = Some(owned(a.id()));
                proof {
                    assert(acts.take(i + 1)[i as int].id == "default"@);
                    assert(portal_buttons(acts.take(i + 1)) =~= portal_buttons(acts.take(i as int)));
                }
            } else {
                buttons.push(Button::new(a.id(), a.label()));
                proof {
                    assert(buttons@.map_values(|b: Button| button_of(&b)) =~= before.map_values(|b: Button| button_of(&b)).push((a@.id, a@.label)));
                    assert(portal_buttons(acts.take(i + 1)) =~= portal_buttons(acts.take(i as int)).push((a@.id, a@.label)));
                    let t1 = acts.take(i + 1);
                    let t0 = acts.take(i as int);
                    if exists|k: int| 0 <= k < t1.len() && #[trigger] t1[k].id == "default"@ {
                        let k = choose|k: int| 0 <= k < t1.len() && #[trigger] t1[k].id == "default"@;
                        assert(k < i);
                        assert(t0[k] == t1[k]);
                    }
                    if exists|k: int| 0 <= k < t0.len() && #[trigger] t0[k].id == "default"@ {
                        let k = choose|k: int| 0 <= k < t0.len() && #[trigger] t0[k].id == "default"@;
                        assert(t0[k] == t1[k]);
                    }
                }
            }
            i = i + 1;
        }
        proof {
            assert(acts.take(acts.len() as int) =~= acts);
        }
        let body = if self.body.as_str().is_empty() {
            None
        } else {
            Some(self.body)
        };
        PortalNotification {
            title: self.summary,
            body,
            id: None,
            priority,
            icon,
            buttons,
            default_action: default,
        }
    }
}

/// The portal request that the classic path sends: title, body, no markup
/// body, and the priority of an urgency hint (normal without one).
#[derive(Debug)]
pub struct PortalRequest {
    /// The title.
    pub title: String,
    /// The body.
    pub body: String,
    /// The body with markup.
    pub markup_body: Option<String>,
    /// The priority.
    pub priority: Priority,
}

impl PortalRequest {
    /// The request for a classic notification.
    pub fn from_notification(n: &Notification) -> (r: PortalRequest)
        requires
            n.wf(),
        ensures
            r.title@ == n@.summary,
            r.body@ == n@.body,
            r.markup_body is None,
            has_urgency(n@.hints) ==> exists|u: crate::urgency::Urgency| n@.hints.contains(HintView::Urgency(u)) && r.priority
                == priority_of_urgency(u),
            !has_urgency(n@.hints) ==> r.priority == Priority::Normal,
    {
        proof {
            n.lemma_hints_view();
        }
        let priority = match first_urgency(&n.hints) {
            Some(p) => p,
            None => Priority::Normal,
        };
        PortalRequest { title: n.summary.clone(), body: n.body.clone(), markup_body: None, priority }
    }
}

} // verus!
