//! The desktop notification, configured with a builder before it is shown.
use vstd::prelude::*;

use crate::action::{button_view, Action, ActionView};
use crate::image::{NotificationImage, Version};
use crate::interruption_level::InterruptionLevel;
use crate::hints::{hint_entry, Hint, HintView, WireValue, WireValueView};
use crate::text::owned;
use crate::timeout::Timeout;
use crate::urgency::Urgency;
use crate::xdg::{
    custom_bus_name, well_known_name_valid, NotificationBus, NotificationId, NotificationIdView,
    NOTIFICATION_DEFAULT_BUS,
};

verus! {

/// The two kinds of custom hint; a custom hint is kept once per key and kind.
#[derive(Copy, Clone, Debug, PartialEq, Eq, Hash, Structural)]
pub enum CustomHintType {
    /// A custom integer hint.
    Int,
    /// A custom string hint.
    String,
}

/// Whether a hint is a custom one.
pub open spec fn is_custom(h: HintView) -> bool {
    h is Custom || h is CustomInt
}

/// The key under which a custom hint is kept.
pub open spec fn custom_key(h: HintView) -> (Seq<char>, CustomHintType) {
    match h {
        HintView::Custom(k, _) => (k, CustomHintType::String),
        HintView::CustomInt(k, _) => (k, CustomHintType::Int),
        _ => (Seq::empty(), CustomHintType::String),
    }
}

/// The custom hints of a list, by key; a later hint replaces an earlier one.
pub open spec fn custom_map(s: Seq<HintView>) -> Map<(Seq<char>, CustomHintType), HintView>
    decreases s.len(),
{
    if s.len() == 0 {
        Map::empty()
    } else {
        custom_map(s.drop_last()).insert(custom_key(s.last()), s.last())
    }
}

/// No two hints of a list share a custom key, and all are custom hints.
pub open spec fn custom_list_ok(s: Seq<HintView>) -> bool {
    &&& forall|i: int| 0 <= i < s.len() ==> is_custom(#[trigger] s[i])
    &&& forall|i: int, j: int|
        0 <= i < s.len() && 0 <= j < s.len() && i != j ==> custom_key(#[trigger] s[i]) != custom_key(#[trigger] s[j])
}

proof fn lemma_custom_map_update(s: Seq<HintView>, j: int, h: HintView)
    requires
        custom_list_ok(s),
        0 <= j < s.len(),
        is_custom(h),
        custom_key(s[j]) == custom_key(h),
    ensures
        custom_list_ok(s.update(j, h)),
        custom_map(s.update(j, h)) == custom_map(s).insert(custom_key(h), h),
    decreases s.len(),
{
    let t = s.update(j, h);
    assert forall|a: int, b: int| 0 <= a < t.len() && 0 <= b < t.len() && a != b implies custom_key(
        #[trigger] t[a],
    ) != custom_key(#[trigger] t[b]) by {
        if a != j && b != j {
            assert(t[a] == s[a] && t[b] == s[b]);
        } else if a == j {
            assert(custom_key(s[b]) != custom_key(s[j]));
        } else {
            assert(custom_key(s[a]) != custom_key(s[j]));
        }
    }
    assert forall|a: int| 0 <= a < t.len() implies is_custom(#[trigger] t[a]) by {
        if a != j {
            assert(t[a] == s[a]);
        }
    }
    if j == s.len() - 1 {
        assert(t.drop_last() =~= s.drop_last());
        assert(custom_map(t) =~= custom_map(s).insert(custom_key(h), h));
    } else {
        let d = s.drop_last();
        assert(custom_list_ok(d)) by {
            assert forall|a: int, b: int| 0 <= a < d.len() && 0 <= b < d.len() && a != b implies custom_key(
                #[trigger] d[a],
            ) != custom_key(#[trigger] d[b]) by {
                assert(d[a] == s[a] && d[b] == s[b]);
            }
            assert forall|a: int| 0 <= a < d.len() implies is_custom(#[trigger] d[a]) by {
                assert(d[a] == s[a]);
            }
        }
        lemma_custom_map_update(d, j, h);
        assert(t.drop_last() =~= d.update(j, h));
        assert(t.last() == s.last());
        assert(custom_key(s.last()) != custom_key(s[j]));
        assert(custom_map(t) =~= custom_map(s).insert(custom_key(h), h));
    }
}

proof fn lemma_custom_map_push(s: Seq<HintView>, h: HintView)
    requires
        custom_list_ok(s),
        is_custom(h),
        forall|i: int| 0 <= i < s.len() ==> custom_key(#[trigger] s[i]) != custom_key(h),
    ensures
        custom_list_ok(s.push(h)),
        custom_map(s.push(h)) == custom_map(s).insert(custom_key(h), h),
{
    let t = s.push(h);
    assert(t.drop_last() =~= s);
    assert forall|a: int, b: int| 0 <= a < t.len() && 0 <= b < t.len() && a != b implies custom_key(
        #[trigger] t[a],
    ) != custom_key(#[trigger] t[b]) by {
        if a < s.len() && b < s.len() {
            assert(t[a] == s[a] && t[b] == s[b]);
        } else if a == s.len() {
            assert(t[b] == s[b]);
        } else {
            assert(t[a] == s[a]);
        }
    }
    assert forall|a: int| 0 <= a < t.len() implies is_custom(#[trigger] t[a]) by {
        if a < s.len() {
            assert(t[a] == s[a]);
        }
    }
}

/// Desktop notification.
///
/// A desktop notification is configured via builder pattern, before it is
/// launched with `show()`.
#[derive(Debug)]
#[non_exhaustive]
pub struct Notification {
    /// Filled by default with the executable's name.
    pub appname: String,
    /// Single line to summarize the content.
    pub summary: String,
    /// Subtitle (shown on macOS).
    pub subtitle: Option<String>,
    /// Multiple lines possible, may support simple markup.
    pub body: String,
    /// Use a file:// URI or a name in an icon theme.
    pub icon: String,
    /// The hints, each held once; custom hints are held elsewhere, once per key.
    pub hints: Vec<Hint>,
    pub(crate) hints_unique: Vec<Hint>,
    /// See `Notification::actions()` and `Notification::action()`.
    pub actions: Vec<Action>,
    pub(crate) bus: NotificationBus,
    /// Lifetime of the Notification in ms. Often not respected by server.
    pub timeout: Timeout,
    pub(crate) id: Option<NotificationId>,
    pub(crate) interruption_level: Option<InterruptionLevel>,
    pub(crate) thread_id: Option<String>,
    pub(crate) sound_name: Option<String>,
    pub(crate) path_to_image: Option<String>,
    pub(crate) app_id: Option<String>,
    pub(crate) urgency: Option<Urgency>,
}

/// The view of an optional text.
pub open spec fn text_view(s: Option<String>) -> Option<Seq<char>> {
    match s {
        Some(x) => Some(x@),
        None => None,
    }
}

/// A copy of an optional text.
pub fn copy_text(s: &Option<String>) -> (r: Option<String>)
    ensures
        text_view(r) == text_view(*s),
{
    match s {
        Some(x) => Some(x.clone()),
        None => None,
    }
}

/// The abstract value of a [`Notification`].
pub struct NotificationView {
    pub appname: Seq<char>,
    pub summary: Seq<char>,
    pub subtitle: Option<Seq<char>>,
    pub body: Seq<char>,
    pub icon: Seq<char>,
    /// The hints other than the custom ones.
    pub hints: Set<HintView>,
    /// The custom hints, by key and kind.
    pub custom_hints: Map<(Seq<char>, CustomHintType), HintView>,
    pub actions: Seq<ActionView>,
    pub bus: Seq<char>,
    pub timeout: Timeout,
    pub id: Option<NotificationIdView>,
    /// How far it may break through focus settings (macOS only).
    pub interruption_level: Option<InterruptionLevel>,
    /// The thread it is grouped in (macOS only).
    pub thread_id: Option<Seq<char>>,
    /// The sound the native APIs of macOS and Windows play.
    pub sound_name: Option<Seq<char>>,
    /// The image the native APIs of macOS and Windows show.
    pub image_path: Option<Seq<char>>,
    /// The application user model id of a Windows toast.
    pub app_id: Option<Seq<char>>,
    /// The urgency a Windows toast is shown with.
    pub urgency: Option<Urgency>,
}

/// The views of a list of hints.
pub open spec fn hint_views(s: Seq<Hint>) -> Seq<HintView> {
    s.map_values(|h: Hint| h@)
}

/// The views of a list of actions.
pub open spec fn action_views(s: Seq<Action>) -> Seq<ActionView> {
    s.map_values(|a: Action| a@)
}

impl View for Notification {
    type V = NotificationView;

    closed spec fn view(&self) -> NotificationView {
        NotificationView {
            appname: self.appname@,
            summary: self.summary@,
            subtitle: match self.subtitle {
                Some(s) => Some(s@),
                None => None,
            },
            body: self.body@,
            icon: self.icon@,
            hints: hint_views(self.hints@).to_set(),
            custom_hints: custom_map(hint_views(self.hints_unique@)),
            actions: action_views(self.actions@),
            bus: self.bus@,
            timeout: self.timeout,
            id: match self.id {
                Some(i) => Some(i@),
                None => None,
            },
            interruption_level: self.interruption_level,
            thread_id: match self.thread_id {
                Some(t) => Some(t@),
                None => None,
            },
            sound_name: text_view(self.sound_name),
            image_path: text_view(self.path_to_image),
            app_id: text_view(self.app_id),
            urgency: self.urgency,
        }
    }
}

/// A notification with the given application name and bus and nothing else:
/// every text empty, no hints, no actions, the server's default timeout.
pub open spec fn fresh_view(appname: Seq<char>, bus: Seq<char>) -> NotificationView {
    NotificationView {
        appname,
        summary: Seq::empty(),
        subtitle: None,
        body: Seq::empty(),
        icon: Seq::empty(),
        hints: Set::empty(),
        custom_hints: Map::empty(),
        actions: Seq::empty(),
        bus,
        timeout: Timeout::Default,
        id: None,
        interruption_level: None,
        thread_id: None,
        sound_name: None,
        image_path: None,
        app_id: None,
        urgency: None,
    }
}

/// The notification after adding a hint: a custom hint replaces the one with
/// its key and kind, any other joins the set of hints.
pub open spec fn with_hint(n: NotificationView, h: HintView) -> NotificationView {
    if is_custom(h) {
        NotificationView { custom_hints: n.custom_hints.insert(custom_key(h), h), ..n }
    } else {
        NotificationView { hints: n.hints.insert(h), ..n }
    }
}

/// The actions read from a flat `[id, label, id, label, ...]` list: a button
/// for each complete pair.
pub open spec fn buttons_from_flat(raw: Seq<Seq<char>>) -> Seq<ActionView> {
    Seq::new(raw.len() / 2, |k: int| button_view(raw[2 * k], raw[2 * k + 1]))
}

/// The flat `[id, label, id, label, ...]` list of a list of actions.
pub open spec fn flat_of_actions(actions: Seq<ActionView>) -> Seq<Seq<char>> {
    Seq::new(2 * actions.len(), |i: int| if i % 2 == 0 { actions[i / 2].id } else { actions[i / 2].label })
}

/// The arguments of an XDG `Notify` call.
#[derive(Debug)]
pub struct NotifyRequest {
    /// The sending application.
    pub appname: String,
    /// The id of the notification to replace, `0` for none.
    pub replaces_id: u32,
    /// The icon.
    pub icon: String,
    /// The summary.
    pub summary: String,
    /// The body.
    pub body: String,
    /// The flat `[id, label, id, label, ...]` list of actions.
    pub actions: Vec<String>,
    /// The hints, as keys and values.
    pub hints: Vec<(String, WireValue)>,
    /// The timeout's wire value.
    pub timeout: i32,
}

/// The views of a list of hint entries.
pub open spec fn entry_views(s: Seq<(String, WireValue)>) -> Seq<(Seq<char>, WireValueView)> {
    s.map_values(|e: (String, WireValue)| (e.0@, e.1@))
}

impl Notification {
    /// Whether the notification's custom hints are held once per key.
    pub closed spec fn wf(&self) -> bool {
        custom_list_ok(hint_views(self.hints_unique@))
    }

    /// The hints of the notification are the views of its list of hints.
    pub(crate) proof fn lemma_hints_view(&self)
        ensures
            self@.hints == hint_views(self.hints@).to_set(),
            self@.summary == self.summary@,
            self@.body == self.body@,
            self@.icon == self.icon@,
    {
    }

    /// The plain fields of the notification's view.
    pub(crate) proof fn lemma_mac_fields_view(&self)
        ensures
            self@.summary == self.summary@,
            self@.body == self.body@,
            self@.subtitle == (match self.subtitle {
                Some(s) => Some(s@),
                None => None,
            }),
            self@.timeout == self.timeout,
            self@.id == (match self.id {
                Some(i) => Some(i@),
                None => None,
            }),
            self@.interruption_level == self.interruption_level,
            self@.thread_id == (match self.thread_id {
                Some(t) => Some(t@),
                None => None,
            }),
            self@.sound_name == text_view(self.sound_name),
            self@.image_path == text_view(self.path_to_image),
            self@.app_id == text_view(self.app_id),
            self@.urgency == self.urgency,
    {
    }

    /// The actions of the notification are the views of its list of actions.
    pub(crate) proof fn lemma_actions_view(&self)
        ensures
            self@.actions == action_views(self.actions@),
    {
    }

    /// Constructs a new notification for the given application name; every
    /// other field is empty, the timeout is the server default and the bus is
    /// the desktop's notification server.
    pub fn new(appname: &str) -> (n: Notification)
        ensures
            n.wf(),
            n@ == fresh_view(appname@, NOTIFICATION_DEFAULT_BUS@),
    {
        let n = Notification {
            appname: owned(appname),
            summary: String::new(),
            subtitle: None,
            body: String::new(),
            icon: String::new(),
            hints: Vec::new(),
            hints_unique: Vec::new(),
            actions: Vec::new(),
            bus: NotificationBus::default_bus(),
            timeout: Timeout::Default,
            id: None,
            interruption_level: None,
            thread_id: None,
            sound_name: None,
            path_to_image: None,
            app_id: None,
            urgency: None,
        };
        assert(hint_views(n.hints@).to_set() =~= Set::empty());
        assert(hint_views(n.hints_unique@) =~= Seq::empty());
        assert(action_views(n.actions@) =~= Seq::empty());
        n
    }

    /// A notification for the given application name that is sent to a
    /// custom bus, for testing: the bus that `NotificationBus::custom` makes
    /// of `sub_bus`. `None` when that bus name is refused.
    pub fn at_bus(appname: &str, sub_bus: &str) -> (r: Option<Notification>)
        ensures
            r matches Some(n) ==> n.wf() && n@ == fresh_view(appname@, custom_bus_name(sub_bus@)),
            r is Some <==> well_known_name_valid(custom_bus_name(sub_bus@)),
    {
        match NotificationBus::custom(sub_bus) {
            Some(bus) => {
                let mut n = Notification::new(appname);
                n.bus = bus;
                Some(n)
            },
            None => None,
        }
    }

    /// Overwrite the appname.
    pub fn appname(&mut self, appname: &str) -> (r: &mut Notification)
        requires
            old(self).wf(),
        ensures
            r.wf(),
            r@ == (NotificationView { appname: appname@, ..old(self)@ }),
            *final(self) == *final(r),
    {
        self.appname = owned(appname);
        self
    }

    /// Set the summary, which often acts as the title.
    pub fn summary(&mut self, summary: &str) -> (r: &mut Notification)
        requires
            old(self).wf(),
        ensures
            r.wf(),
            r@ == (NotificationView { summary: summary@, ..old(self)@ }),
            *final(self) == *final(r),
    {
        self.summary = owned(summary);
        self
    }

    /// Set the subtitle.
    pub fn subtitle(&mut self, subtitle: &str) -> (r: &mut Notification)
        requires
            old(self).wf(),
        ensures
            r.wf(),
            r@ == (NotificationView { subtitle: Some(subtitle@), ..old(self)@ }),
            *final(self) == *final(r),
    {
        self.subtitle = Some(owned(subtitle));
        self
    }

    /// Set the body: multiline textual content of the notification.
    pub fn body(&mut self, body: &str) -> (r: &mut Notification)
        requires
            old(self).wf(),
        ensures
            r.wf(),
            r@ == (NotificationView { body: body@, ..old(self)@ }),
            *final(self) == *final(r),
    {
        self.body = owned(body);
        self
    }

    /// Set the icon: a name from the icon theme, or a path.
    pub fn icon(&mut self, icon: &str) -> (r: &mut Notification)
        requires
            old(self).wf(),
        ensures
            r.wf(),
            r@ == (NotificationView { icon: icon@, ..old(self)@ }),
            *final(self) == *final(r),
    {
        self.icon = owned(icon);
        self
    }

    /// Set the icon to the name of the running executable, which the caller
    /// reads and passes in.
    pub fn auto_icon(&mut self, exe_name: &str) -> (r: &mut Notification)
        requires
            old(self).wf(),
        ensures
            r.wf(),
            r@ == (NotificationView { icon: exe_name@, ..old(self)@ }),
            *final(self) == *final(r),
    {
        self.icon = owned(exe_name);
        self
    }

    #[verifier::loop_isolation(false)]
    fn add_hint(&mut self, hint: Hint)
        requires
            old(self).wf(),
        ensures
            final(self).wf(),
            final(self)@ == with_hint(old(self)@, hint@),
    {
        let is_custom_hint = match &hint {
            Hint::Custom(_, _) => true,
            Hint::CustomInt(_, _) => true,
            _ => false,
        };
        if is_custom_hint {
            let ghost s = hint_views(self.hints_unique@);
            let mut i: usize = 0;
            while i < self.hints_unique.len()
                invariant
                    i <= self.hints_unique.len(),
                    *self == *old(self),
                    s == hint_views(self.hints_unique@),
                    is_custom(hint@),
                    forall|k: int| 0 <= k < i ==> custom_key(#[trigger] s[k]) != custom_key(hint@),
                decreases self.hints_unique.len() - i,
            {
                let same = match (&self.hints_unique[i], &hint) {
                    (Hint::Custom(a, _), Hint::Custom(b, _)) => *a == *b,
                    (Hint::CustomInt(a, _), Hint::CustomInt(b, _)) => *a == *b,
                    _ => false,
                };
                proof {
                    assert(s[i as int] == self.hints_unique@[i as int]@);
                    assert(is_custom(s[i as int]));
                }
                if same {
                    proof {
                        lemma_custom_map_update(s, i as int, hint@);
                    }
                    self.hints_unique.set(i, hint);
                    proof {
                        assert(hint_views(self.hints_unique@) =~= s.update(i as int, hint@));
                        assert(custom_map(hint_views(self.hints_unique@)) == custom_map(s).insert(custom_key(hint@), hint@));
                        assert(self.wf());
                        assert(self@.custom_hints == old(self)@.custom_hints.insert(custom_key(hint@), hint@));
                        assert(self@.hints == old(self)@.hints);
                        assert(self@ == with_hint(old(self)@, hint@));
                    }
                    return;
                }
                i = i + 1;
            }
            proof {
                lemma_custom_map_push(s, hint@);
            }
            self.hints_unique.push(hint);
            proof {
                assert(hint_views(self.hints_unique@) =~= s.push(hint@));
                assert(self@ == with_hint(old(self)@, hint@));
            }
        } else {
            let ghost s = hint_views(self.hints@);
            let mut i: usize = 0;
            while i < self.hints.len()
                invariant
                    i <= self.hints.len(),
                    *self == *old(self),
                    s == hint_views(self.hints@),
                    forall|k: int| 0 <= k < i ==> #[trigger] s[k] != hint@,
                decreases self.hints.len() - i,
            {
                if self.hints[i].same_as(&hint) {
                    proof {
                        assert(s[i as int] == hint@);
                        assert(s.contains(hint@));
                        assert(s.to_set().insert(hint@) =~= s.to_set());
                    }
                    return;
                }
                i = i + 1;
            }
            self.hints.push(hint);
            proof {
                assert(hint_views(self.hints@) =~= s.push(hint@));
                lemma_push_to_set(s, hint@);
            }
        }
    }

    /// Adds a hint. A custom hint replaces the one with the same key and kind;
    /// any other hint is added to the set of hints.
    pub fn hint(&mut self, hint: Hint) -> (r: &mut Notification)
        requires
            old(self).wf(),
        ensures
            r.wf(),
            r@ == with_hint(old(self)@, hint@),
            *final(self) == *final(r),
    {
        self.add_hint(hint);
        self
    }

    /// Sets the image path: an `image-path` hint for a desktop server and the
    /// image that the native APIs of macOS and Windows show.
    pub fn image_path(&mut self, path: &str) -> (r: &mut Notification)
        requires
            old(self).wf(),
        ensures
            r.wf(),
            r@ == (NotificationView {
                image_path: Some(path@),
                ..with_hint(old(self)@, HintView::ImagePath(path@))
            }),
            *final(self) == *final(r),
    {
        self.add_hint(Hint::ImagePath(owned(path)));
        self.path_to_image = Some(owned(path));
        self
    }

    /// Sets the application user model id a Windows toast is shown under.
    pub fn app_id(&mut self, app_id: &str) -> (r: &mut Notification)
        requires
            old(self).wf(),
        ensures
            r.wf(),
            r@ == (NotificationView { app_id: Some(app_id@), ..old(self)@ }),
            *final(self) == *final(r),
    {
        self.app_id = Some(owned(app_id));
        self
    }

    /// Attaches an image, as an image data hint.
    pub fn image_data(&mut self, image: NotificationImage) -> (r: &mut Notification)
        requires
            old(self).wf(),
        ensures
            r.wf(),
            r@ == with_hint(old(self)@, HintView::ImageData(image@)),
            *final(self) == *final(r),
    {
        self.add_hint(Hint::ImageData(image));
        self
    }

    /// Sets a themed sound: a `sound-name` hint for a desktop server and the
    /// sound that the native APIs of macOS and Windows play.
    pub fn sound_name(&mut self, name: &str) -> (r: &mut Notification)
        requires
            old(self).wf(),
        ensures
            r.wf(),
            r@ == (NotificationView {
                sound_name: Some(name@),
                ..with_hint(old(self)@, HintView::SoundName(name@))
            }),
            *final(self) == *final(r),
    {
        self.add_hint(Hint::SoundName(owned(name)));
        self.sound_name = Some(owned(name));
        self
    }

    /// Sets the urgency: an `urgency` hint for a desktop server and the
    /// urgency of a Windows toast.
    pub fn urgency(&mut self, urgency: Urgency) -> (r: &mut Notification)
        requires
            old(self).wf(),
        ensures
            r.wf(),
            r@ == (NotificationView { urgency: Some(urgency), ..with_hint(old(self)@, HintView::Urgency(urgency)) }),
            *final(self) == *final(r),
    {
        self.add_hint(Hint::Urgency(urgency));
        self.urgency = Some(urgency);
        self
    }

    /// All hints: the set of hints, then the custom ones.
    pub fn get_hints(&self) -> (r: Vec<Hint>)
        requires
            self.wf(),
        ensures
            hint_views(r@).to_set() == self@.hints + self@.custom_hints.values(),
    {
        let mut out: Vec<Hint> = Vec::new();
        let mut i: usize = 0;
        while i < self.hints.len()
            invariant
                i <= self.hints.len(),
                out@.len() == i,
                hint_views(out@) == hint_views(self.hints@).take(i as int),
            decreases self.hints.len() - i,
        {
            let ghost before = out@;
            let h = self.hints[i].duplicate();
            out.push(h);
            proof {
                lemma_hint_views_push(before, h, self.hints@, i as int);
            }
            i = i + 1;
        }
        let mut j: usize = 0;
        while j < self.hints_unique.len()
            invariant
                j <= self.hints_unique.len(),
                out@.len() == self.hints@.len() + j,
                hint_views(out@) == hint_views(self.hints@) + hint_views(self.hints_unique@).take(j as int),
            decreases self.hints_unique.len() - j,
        {
            let ghost before = out@;
            let h = self.hints_unique[j].duplicate();
            out.push(h);
            proof {
                let a = hint_views(out@);
                let b = hint_views(self.hints@) + hint_views(self.hints_unique@).take(j + 1);
                assert forall|k: int| 0 <= k < a.len() implies a[k] == b[k] by {
                    if k < before.len() {
                        assert(hint_views(before)[k] == (hint_views(self.hints@) + hint_views(self.hints_unique@).take(j as int))[k]);
                    }
                }
                assert(a =~= b);
            }
            j = j + 1;
        }
        proof {
            let s = hint_views(self.hints_unique@);
            assert(s.take(s.len() as int) =~= s);
            lemma_custom_values(s);
            lemma_concat_to_set(hint_views(self.hints@), s);
        }
        out
    }

    /// Set the timeout.
    pub fn timeout(&mut self, timeout: Timeout) -> (r: &mut Notification)
        requires
            old(self).wf(),
        ensures
            r.wf(),
            r@ == (NotificationView { timeout: timeout, ..old(self)@ }),
            *final(self) == *final(r),
    {
        self.timeout = timeout;
        self
    }

    /// Replaces the actions with buttons read from a flat
    /// `[id, label, id, label, ...]` list; an odd last element is dropped.
    pub fn actions(&mut self, actions: Vec<String>) -> (r: &mut Notification)
        requires
            old(self).wf(),
        ensures
            r.wf(),
            r@ == (NotificationView {
                actions: buttons_from_flat(actions@.map_values(|s: String| s@)),
                ..old(self)@
            }),
            *final(self) == *final(r),
    {
        let ghost flat = actions@.map_values(|s: String| s@);
        let mut out: Vec<Action> = Vec::new();
        let mut i: usize = 0;
        while i + 1 < actions.len()
            invariant
                i % 2 == 0,
                i <= actions.len(),
                flat == actions@.map_values(|s: String| s@),
                out@.len() == i / 2,
                forall|k: int| 0 <= k < out@.len() ==> #[trigger] out@[k]@ == button_view(flat[2 * k], flat[2 * k + 1]),
            decreases actions.len() - i,
        {
            out.push(Action::button(actions[i].as_str(), actions[i + 1].as_str()));
            i = i + 2;
        }
        assert(action_views(out@) =~= buttons_from_flat(flat));
        self.actions = out;
        self
    }

    /// Adds an action.
    pub fn action(&mut self, action: Action) -> (r: &mut Notification)
        requires
            old(self).wf(),
        ensures
            r.wf(),
            r@ == (NotificationView { actions: old(self)@.actions.push(action@), ..old(self)@ }),
            *final(self) == *final(r),
    {
        let ghost before = self.actions@;
        self.actions.push(action);
        assert(action_views(self.actions@) =~= action_views(before).push(action@));
        self
    }

    /// Set an id ahead of time, to replace a known notification.
    pub fn id(&mut self, id: NotificationId) -> (r: &mut Notification)
        requires
            old(self).wf(),
        ensures
            r.wf(),
            r@ == (NotificationView { id: Some(id@), ..old(self)@ }),
            *final(self) == *final(r),
    {
        self.id = Some(id);
        self
    }

    /// Set how far the notification may break through focus settings; only
    /// macOS honours it.
    pub fn interruption_level(&mut self, level: InterruptionLevel) -> (r: &mut Notification)
        requires
            old(self).wf(),
        ensures
            r.wf(),
            r@ == (NotificationView { interruption_level: Some(level), ..old(self)@ }),
            *final(self) == *final(r),
    {
        self.interruption_level = Some(level);
        self
    }

    /// Group the notification with others of the same thread; only macOS
    /// honours it.
    pub fn thread_id(&mut self, id: &str) -> (r: &mut Notification)
        requires
            old(self).wf(),
        ensures
            r.wf(),
            r@ == (NotificationView { thread_id: Some(id@), ..old(self)@ }),
            *final(self) == *final(r),
    {
        self.thread_id = Some(owned(id));
        self
    }

    /// The actions as the flat `[id, label, id, label, ...]` list that the
    /// XDG `Notify` call takes; reply actions are plain buttons there.
    pub fn actions_xdg_strings(&self) -> (r: Vec<String>)
        ensures
            r@.map_values(|s: String| s@) == flat_of_actions(self@.actions),
    {
        let ghost acts = action_views(self.actions@);
        let mut out: Vec<String> = Vec::new();
        let mut i: usize = 0;
        while i < self.actions.len()
            invariant
                i <= self.actions.len(),
                acts == action_views(self.actions@),
                out@.len() == 2 * i,
                forall|k: int| 0 <= k < out@.len() ==> #[trigger] out@[k]@ == (if k % 2 == 0 {
                    acts[k / 2].id
                } else {
                    acts[k / 2].label
                }),
            decreases self.actions.len() - i,
        {
            let a = &self.actions[i];
            out.push(owned(a.id()));
            out.push(owned(a.label()));
            i = i + 1;
        }
        assert(out@.map_values(|s: String| s@) =~= flat_of_actions(acts));
        out
    }

    /// The arguments of the XDG `Notify` call for this notification: the
    /// application name, the id to replace (a numeric id set ahead of time,
    /// else `0`), icon, summary, body, the flat list of actions, the hints
    /// as keys and values (image data under the key of the server's
    /// specification version), and the timeout's wire value.
    pub fn notify_request(&self, version: Version) -> (r: NotifyRequest)
        requires
            self.wf(),
        ensures
            r.appname@ == self@.appname,
            r.replaces_id == (match self@.id {
                Some(NotificationIdView::Global(n)) => n,
                _ => 0u32,
            }),
            r.icon@ == self@.icon,
            r.summary@ == self@.summary,
            r.body@ == self@.body,
            r.actions@.map_values(|s: String| s@) == flat_of_actions(self@.actions),
            entry_views(r.hints@).to_set() == (self@.hints + self@.custom_hints.values()).map(
                |h: HintView| hint_entry(h, version),
            ),
            r.timeout == crate::timeout::i32_of_timeout(self@.timeout),
    {
        let all = self.get_hints();
        let ghost views = hint_views(all@);
        let mut hints: Vec<(String, WireValue)> = Vec::new();
        let mut i: usize = 0;
        while i < all.len()
            invariant
                i <= all.len(),
                views == hint_views(all@),
                hints@.len() == i,
                forall|k: int| 0 <= k < i ==> #[trigger] entry_views(hints@)[k] == hint_entry(views[k], version),
            decreases all.len() - i,
        {
            let ghost before = hints@;
            let e = all[i].entry(version);
            let ghost ev = (e.0@, e.1@);
            assert(ev == hint_entry(views[i as int], version));
            hints.push(e);
            proof {
                assert(entry_views(hints@)[i as int] == ev);
                assert forall|k: int| 0 <= k < i + 1 implies #[trigger] entry_views(hints@)[k] == hint_entry(
                    views[k],
                    version,
                ) by {
                    if k < i {
                        assert(hints@[k] == before[k]);
                        assert(entry_views(before)[k] == hint_entry(views[k], version));
                    }
                }
            }
            i = i + 1;
        }
        proof {
            let ev = entry_views(hints@);
            assert(ev =~= views.map_values(|h: HintView| hint_entry(h, version)));
            lemma_map_values_to_set(views, |h: HintView| hint_entry(h, version));
        }
        let replaces_id = match &self.id {
            Some(NotificationId::Global(n)) => *n,
            _ => 0,
        };
        NotifyRequest {
            appname: self.appname.clone(),
            replaces_id,
            icon: self.icon.clone(),
            summary: self.summary.clone(),
            body: self.body.clone(),
            actions: self.actions_xdg_strings(),
            hints,
            timeout: self.timeout.into_i32(),
        }
    }

    /// A complete copy of the built notification.
    pub fn finalize(&self) -> (r: Notification)
        requires
            self.wf(),
        ensures
            r.wf(),
            r@ == self@,
    {
        let mut hints: Vec<Hint> = Vec::new();
        let mut i: usize = 0;
        while i < self.hints.len()
            invariant
                i <= self.hints.len(),
                hint_views(hints@) == hint_views(self.hints@).take(i as int),
            decreases self.hints.len() - i,
        {
            let ghost before = hints@;
            let h = self.hints[i].duplicate();
            hints.push(h);
            proof {
                lemma_hint_views_push(before, h, self.hints@, i as int);
            }
            i = i + 1;
        }
        let mut unique: Vec<Hint> = Vec::new();
        let mut j: usize = 0;
        while j < self.hints_unique.len()
            invariant
                j <= self.hints_unique.len(),
                hint_views(unique@) == hint_views(self.hints_unique@).take(j as int),
            decreases self.hints_unique.len() - j,
        {
            let ghost before = unique@;
            let h = self.hints_unique[j].duplicate();
            unique.push(h);
            proof {
                lemma_hint_views_push(before, h, self.hints_unique@, j as int);
            }
            j = j + 1;
        }
        let mut actions: Vec<Action> = Vec::new();
        let mut k: usize = 0;
        while k < self.actions.len()
            invariant
                k <= self.actions.len(),
                action_views(actions@) == action_views(self.actions@).take(k as int),
            decreases self.actions.len() - k,
        {
            let ghost before = actions@;
            let a = self.actions[k].duplicate();
            actions.push(a);
            proof {
                lemma_action_views_push(before, a, self.actions@, k as int);
            }
            k = k + 1;
        }
        proof {
            assert(hint_views(self.hints@).take(self.hints@.len() as int) =~= hint_views(self.hints@));
            assert(hint_views(self.hints_unique@).take(self.hints_unique@.len() as int) =~= hint_views(
                self.hints_unique@,
            ));
            assert(action_views(self.actions@).take(self.actions@.len() as int) =~= action_views(self.actions@));
        }
        Notification {
            appname: self.appname.clone(),
            summary: self.summary.clone(),
            subtitle: match &self.subtitle {
                Some(s) => Some(s.clone()),
                None => None,
            },
            body: self.body.clone(),
            icon: self.icon.clone(),
            hints,
            hints_unique: unique,
            actions,
            bus: self.bus.duplicate(),
            timeout: self.timeout,
            id: match &self.id {
                Some(id) => Some(id.duplicate()),
                None => None,
            },
            interruption_level: self.interruption_level,
            thread_id: match &self.thread_id {
                Some(t) => Some(t.clone()),
                None => None,
            },
            sound_name: copy_text(&self.sound_name),
            path_to_image: copy_text(&self.path_to_image),
            app_id: copy_text(&self.app_id),
            urgency: self.urgency,
        }
    }
}

proof fn lemma_custom_values(s: Seq<HintView>)
    requires
        custom_list_ok(s),
    ensures
        custom_map(s).values() == s.to_set(),
    decreases s.len(),
{
    if s.len() == 0 {
        assert(custom_map(s).values() =~= s.to_set());
    } else {
        let d = s.drop_last();
        assert(custom_list_ok(d)) by {
            assert forall|a: int, b: int| 0 <= a < d.len() && 0 <= b < d.len() && a != b implies custom_key(
                #[trigger] d[a],
            ) != custom_key(#[trigger] d[b]) by {
                assert(d[a] == s[a] && d[b] == s[b]);
            }
            assert forall|a: int| 0 <= a < d.len() implies is_custom(#[trigger] d[a]) by {
                assert(d[a] == s[a]);
            }
        }
        lemma_custom_values(d);
        let k = custom_key(s.last());
        lemma_custom_map_dom(d, k);
        assert(!custom_map(d).dom().contains(k)) by {
            if has_custom_key(d, k) {
                let i = choose|i: int| 0 <= i < d.len() && #[trigger] custom_key(d[i]) == k;
                assert(d[i] == s[i]);
                assert(custom_key(s[i]) != custom_key(s[s.len() - 1]));
            }
        }
        assert(s =~= d.push(s.last()));
        assert(custom_map(s).values() =~= s.to_set()) by {
            assert forall|v: HintView| custom_map(s).values().contains(v) implies s.to_set().contains(v) by {
                let key = choose|key| #[trigger] custom_map(s).dom().contains(key) && custom_map(s)[key] == v;
                if key == k {
                    assert(s.contains(s.last()));
                } else {
                    assert(custom_map(d).values().contains(v));
                    assert(d.to_set().contains(v));
                    let i = choose|i: int| 0 <= i < d.len() && d[i] == v;
                    assert(s[i] == v);
                }
            }
            assert forall|v: HintView| s.to_set().contains(v) implies custom_map(s).values().contains(v) by {
                let i = choose|i: int| 0 <= i < s.len() && s[i] == v;
                if i == s.len() - 1 {
                    assert(custom_map(s).dom().contains(k));
                    assert(custom_map(s)[k] == v);
                } else {
                    assert(d[i] == v);
                    assert(d.to_set().contains(v));
                    assert(custom_map(d).values().contains(v));
                    let key = choose|key| #[trigger] custom_map(d).dom().contains(key) && custom_map(d)[key] == v;
                    assert(key != k);
                    assert(custom_map(s).dom().contains(key) && custom_map(s)[key] == v);
                }
            }
        }
    }
}

proof fn lemma_hint_views_push(before: Seq<Hint>, h: Hint, src: Seq<Hint>, i: int)
    requires
        hint_views(before) == hint_views(src).take(i),
        0 <= i < src.len(),
        h@ == src[i]@,
    ensures
        hint_views(before.push(h)) == hint_views(src).take(i + 1),
{
    let a = hint_views(before.push(h));
    let b = hint_views(src).take(i + 1);
    assert(hint_views(before).len() == before.len());
    assert(before.len() == i);
    assert forall|k: int| 0 <= k < i + 1 implies a[k] == b[k] by {
        if k < i {
            assert(hint_views(before)[k] == hint_views(src).take(i)[k]);
        }
    }
    assert(a =~= b);
}

proof fn lemma_action_views_push(before: Seq<Action>, a: Action, src: Seq<Action>, i: int)
    requires
        action_views(before) == action_views(src).take(i),
        0 <= i < src.len(),
        a@ == src[i]@,
    ensures
        action_views(before.push(a)) == action_views(src).take(i + 1),
{
    let x = action_views(before.push(a));
    let y = action_views(src).take(i + 1);
    assert(action_views(before).len() == before.len());
    assert(before.len() == i);
    assert forall|k: int| 0 <= k < i + 1 implies x[k] == y[k] by {
        if k < i {
            assert(action_views(before)[k] == action_views(src).take(i)[k]);
        }
    }
    assert(x =~= y);
}

/// Some hint of the list has the key.
pub open spec fn has_custom_key(s: Seq<HintView>, key: (Seq<char>, CustomHintType)) -> bool {
    exists|i: int| 0 <= i < s.len() && #[trigger] custom_key(s[i]) == key
}

proof fn lemma_custom_map_dom(s: Seq<HintView>, key: (Seq<char>, CustomHintType))
    ensures
        custom_map(s).dom().contains(key) == has_custom_key(s, key),
    decreases s.len(),
{
    if s.len() > 0 {
        let d = s.drop_last();
        lemma_custom_map_dom(d, key);
        if custom_map(s).dom().contains(key) {
            if key == custom_key(s.last()) {
                assert(custom_key(s[s.len() - 1]) == key);
            } else {
                let i = choose|i: int| 0 <= i < d.len() && #[trigger] custom_key(d[i]) == key;
                assert(s[i] == d[i]);
                assert(custom_key(s[i]) == key);
            }
        }
        if has_custom_key(s, key) {
            let i = choose|i: int| 0 <= i < s.len() && #[trigger] custom_key(s[i]) == key;
            if i < s.len() - 1 {
                assert(d[i] == s[i]);
                assert(custom_key(d[i]) == key);
            }
        }
    }
}

proof fn lemma_concat_to_set<A>(a: Seq<A>, b: Seq<A>)
    ensures
        (a + b).to_set() == a.to_set() + b.to_set(),
{
    let c = a + b;
    assert forall|x: A| c.to_set().contains(x) implies (a.to_set() + b.to_set()).contains(x) by {
        let i = choose|i: int| 0 <= i < c.len() && c[i] == x;
        if i < a.len() {
            assert(a[i] == x);
            assert(a.contains(x));
        } else {
            assert(b[i - a.len()] == x);
            assert(b.contains(x));
        }
    }
    assert forall|x: A| (a.to_set() + b.to_set()).contains(x) implies c.to_set().contains(x) by {
        if a.contains(x) {
            let i = choose|i: int| 0 <= i < a.len() && a[i] == x;
            assert(c[i] == x);
            assert(c.contains(x));
        } else {
            let i = choose|i: int| 0 <= i < b.len() && b[i] == x;
            assert(c[i + a.len()] == x);
            assert(c.contains(x));
        }
    }
    assert(c.to_set() =~= a.to_set() + b.to_set());
}

proof fn lemma_push_to_set<A>(s: Seq<A>, x: A)
    ensures
        s.push(x).to_set() == s.to_set().insert(x),
{
    let t = s.push(x);
    assert forall|a: A| t.to_set().contains(a) implies s.to_set().insert(a).contains(a) && (a == x || s.to_set().contains(a)) by {
        let i = choose|i: int| 0 <= i < t.len() && t[i] == a;
        if i < s.len() {
            assert(s[i] == a);
            assert(s.contains(a));
        }
    }
    assert forall|a: A| s.to_set().insert(x).contains(a) implies t.to_set().contains(a) by {
        if a == x {
            assert(t[s.len() as int] == x);
            assert(t.contains(a));
        } else {
            let i = choose|i: int| 0 <= i < s.len() && s[i] == a;
            assert(t[i] == a);
            assert(t.contains(a));
        }
    }
    assert(t.to_set() =~= s.to_set().insert(x));
}

/// Mapping a sequence and then taking its set gives the set mapped.
proof fn lemma_map_values_to_set<A, B>(s: Seq<A>, f: spec_fn(A) -> B)
    ensures
        s.map_values(f).to_set() == s.to_set().map(f),
{
    let m = s.map_values(f);
    assert forall|b: B| m.to_set().contains(b) implies s.to_set().map(f).contains(b) by {
        let k = choose|k: int| 0 <= k < m.len() && m[k] == b;
        assert(s.to_set().contains(s[k]));
    }
    assert forall|b: B| s.to_set().map(f).contains(b) implies m.to_set().contains(b) by {
        let a = choose|a: A| s.to_set().contains(a) && f(a) == b;
        let k = choose|k: int| 0 <= k < s.len() && s[k] == a;
        assert(m[k] == b);
    }
    assert(m.to_set() =~= s.to_set().map(f));
}

} // verus!
