//! XDG (D-Bus) specific parts: identifiers, bus names, close reasons and the
//! reading of the signals that a notification server emits.
use vstd::prelude::*;

use crate::message::{DbusItem, DbusItemView};
use crate::text::{join_path, joined_path, owned, replace_char, replaced, skip_first_slash, str_eq, without_first_slash};

verus! {

/// The well-known bus name of the notification server.
pub const NOTIFICATION_DEFAULT_BUS: &'static str = "org.freedesktop.Notifications";
/// The D-Bus interface of the notification server.
pub const NOTIFICATION_INTERFACE: &'static str = "org.freedesktop.Notifications";
/// The object path of the notification server.
pub const NOTIFICATION_OBJECTPATH: &'static str = "/org/freedesktop/Notifications";
/// The base under which custom (test) buses are named.
pub const CUSTOM_BUS_BASE: &'static str = "/de/hoodie/Notification";

/// The identifier of a shown notification: a number assigned by the
/// notification server, or a string chosen for the desktop portal.
#[derive(Debug, Clone, PartialEq, Eq)]
pub enum NotificationId {
    /// An identifier assigned by `org.freedesktop.Notifications`.
    Global(u32),
    /// An identifier used with `org.freedesktop.portal.Notification`.
    Portal(String),
}

/// The abstract value of a [`NotificationId`].
pub enum NotificationIdView {
    Global(u32),
    Portal(Seq<char>),
}

impl View for NotificationId {
    type V = NotificationIdView;

    open spec fn view(&self) -> NotificationIdView {
        match self {
            NotificationId::Global(id) => NotificationIdView::Global(*id),
            NotificationId::Portal(id) => NotificationIdView::Portal(id@),
        }
    }
}

impl NotificationId {
    /// The server-assigned number, if this is one.
    pub fn as_global(&self) -> (r: Option<u32>)
        ensures
            r == (match self@ {
                NotificationIdView::Global(id) => Some(id),
                NotificationIdView::Portal(_) => None,
            }),
    {
        match self {
            NotificationId::Global(id) => Some(*id),
            NotificationId::Portal(_) => None,
        }
    }

    /// The portal identifier, if this is one.
    pub fn as_portal(&self) -> (r: Option<&str>)
        ensures
            match r {
                Some(s) => self@ == NotificationIdView::Portal(s@),
                None => self@ is Global,
            },
    {
        match self {
            NotificationId::Global(_) => None,
            NotificationId::Portal(id) => Some(id.as_str()),
        }
    }

    /// A copy of this identifier.
    pub fn duplicate(&self) -> (r: NotificationId)
        ensures
            r@ == self@,
    {
        match self {
            NotificationId::Global(id) => NotificationId::Global(*id),
            NotificationId::Portal(id) => NotificationId::Portal(id.clone()),
        }
    }

    /// A server-assigned identifier.
    pub fn from_u32(id: u32) -> (r: NotificationId)
        ensures
            r@ == NotificationIdView::Global(id),
    {
        NotificationId::Global(id)
    }

    /// A portal identifier.
    pub fn from_string(id: String) -> (r: NotificationId)
        ensures
            r@ == NotificationIdView::Portal(id@),
    {
        NotificationId::Portal(id)
    }
}

/// Which D-Bus implementation is in use.
#[derive(Copy, Clone, Debug, PartialEq, Eq, Structural)]
pub enum DbusStack {
    /// using dbus-rs
    Dbus,
    /// using zbus
    Zbus,
}

/// The D-Bus implementation in use when zbus is the only one built in.
pub fn dbus_stack() -> (r: Option<DbusStack>)
    ensures
        r == Some(DbusStack::Zbus),
{
    Some(DbusStack::Zbus)
}

/// The D-Bus implementation in use when both are built in: dbus-rs when the
/// switch variable `DBUSRS` is set, zbus otherwise.
pub fn dbus_stack_selected(switch_set: bool) -> (r: Option<DbusStack>)
    ensures
        r == Some(if switch_set { DbusStack::Dbus } else { DbusStack::Zbus }),
{
    Some(if switch_set { DbusStack::Dbus } else { DbusStack::Zbus })
}

/// Reason passed to the `NotificationClosed` signal.
#[derive(Copy, Clone, Debug, PartialEq, Eq, Structural)]
pub enum CloseReason {
    /// The notification expired
    Expired,
    /// The notification was dismissed by the user
    Dismissed,
    /// The notification was closed by a call to `CloseNotification`
    CloseAction,
    /// Undefined/Reserved reason
    Other(u32),
}

/// The close reason a raw reason code stands for.
pub open spec fn close_reason_of(raw_reason: u32) -> CloseReason {
    if raw_reason == 1 {
        CloseReason::Expired
    } else if raw_reason == 2 {
        CloseReason::Dismissed
    } else if raw_reason == 3 {
        CloseReason::CloseAction
    } else {
        CloseReason::Other(raw_reason)
    }
}

/// The raw reason code of a close reason.
pub open spec fn reason_code(r: CloseReason) -> u32 {
    match r {
        CloseReason::Expired => 1u32,
        CloseReason::Dismissed => 2u32,
        CloseReason::CloseAction => 3u32,
        CloseReason::Other(c) => c,
    }
}

impl CloseReason {
    /// Maps a raw reason code to a close reason.
    pub fn from_u32(raw_reason: u32) -> (r: CloseReason)
        ensures
            r == close_reason_of(raw_reason),
    {
        match raw_reason {
            1 => CloseReason::Expired,
            2 => CloseReason::Dismissed,
            3 => CloseReason::CloseAction,
            other => CloseReason::Other(other),
        }
    }

    /// The raw reason code of a close reason.
    pub fn code(&self) -> (r: u32)
        ensures
            r == reason_code(*self),
    {
        match *self {
            CloseReason::Expired => 1,
            CloseReason::Dismissed => 2,
            CloseReason::CloseAction => 3,
            CloseReason::Other(c) => c,
        }
    }
}

/// Response to an action.
#[derive(Debug, Clone, Copy)]
pub enum ActionResponse<'a> {
    /// Custom Action configured by the Notification.
    Custom(&'a str),
    /// The Notification was closed.
    Closed(CloseReason),
}

/// The abstract value of an [`ActionResponse`].
pub enum ActionResponseView {
    Custom(Seq<char>),
    Closed(CloseReason),
}

impl<'a> View for ActionResponse<'a> {
    type V = ActionResponseView;

    open spec fn view(&self) -> ActionResponseView {
        match self {
            ActionResponse::Custom(s) => ActionResponseView::Custom(s@),
            ActionResponse::Closed(r) => ActionResponseView::Closed(*r),
        }
    }
}

/// The name passed to a `wait_for_action` closure: the action, or
/// `"__closed"` when the notification was closed.
pub open spec fn invocation_name_of(r: ActionResponseView) -> Seq<char> {
    match r {
        ActionResponseView::Custom(a) => a,
        ActionResponseView::Closed(_) => "__closed"@,
    }
}

impl<'a> ActionResponse<'a> {
    /// A custom action response.
    pub fn from_str(raw: &'a str) -> (r: ActionResponse<'a>)
        ensures
            r@ == ActionResponseView::Custom(raw@),
    {
        ActionResponse::Custom(raw)
    }

    /// The name that `wait_for_action` hands to its closure for this response.
    pub fn invocation_name(&self) -> (r: &'a str)
        ensures
            r@ == invocation_name_of(self@),
    {
        match *self {
            ActionResponse::Custom(action) => action,
            ActionResponse::Closed(_) => "__closed",
        }
    }

    /// The close reason, if this response reports a close; `on_close` handlers
    /// run only then.
    pub fn close_reason(&self) -> (r: Option<CloseReason>)
        ensures
            r == (match self@ {
                ActionResponseView::Closed(c) => Some(c),
                ActionResponseView::Custom(_) => None,
            }),
    {
        match *self {
            ActionResponse::Closed(reason) => Some(reason),
            ActionResponse::Custom(_) => None,
        }
    }
}

/// The response that a signal of the notification server carries for
/// notification `id`, as the dbus-rs listener reads it: an `ActionInvoked`
/// or `NotificationClosed` signal on the server's path and interface whose
/// first two items are the id and the action (or the reason code).
pub open spec fn dbus_signal_response(
    path: Seq<char>,
    interface: Seq<char>,
    member: Seq<char>,
    items: Seq<DbusItemView>,
    id: u32,
) -> Option<ActionResponseView> {
    if path == NOTIFICATION_OBJECTPATH@ && interface == NOTIFICATION_INTERFACE@ && member == "ActionInvoked"@ {
        match (items[0], items[1]) {
            (DbusItemView::UInt32(nid), DbusItemView::Str(action)) =>
                if nid == id { Some(ActionResponseView::Custom(action)) } else { None },
            _ => None,
        }
    } else if path == NOTIFICATION_OBJECTPATH@ && interface == NOTIFICATION_INTERFACE@ && member == "NotificationClosed"@ {
        match (items[0], items[1]) {
            (DbusItemView::UInt32(nid), DbusItemView::UInt32(reason)) =>
                if nid == id { Some(ActionResponseView::Closed(close_reason_of(reason))) } else { None },
            _ => None,
        }
    } else {
        None
    }
}

/// Whether a signal is one of the two that the listener reads items of.
pub open spec fn is_server_signal(path: Seq<char>, interface: Seq<char>, member: Seq<char>) -> bool {
    path == NOTIFICATION_OBJECTPATH@ && interface == NOTIFICATION_INTERFACE@ && (member == "ActionInvoked"@
        || member == "NotificationClosed"@)
}

/// Reads a signal received while waiting for an action on notification `id`;
/// `Some` ends the wait with that response, `None` keeps waiting.
pub fn dbus_signal_response_for<'a>(
    path: &str,
    interface: &str,
    member: &str,
    items: &'a Vec<DbusItem>,
    id: u32,
) -> (r: Option<ActionResponse<'a>>)
    requires
        is_server_signal(path@, interface@, member@) ==> items.len() >= 2,
    ensures
        match r {
            Some(resp) => dbus_signal_response(path@, interface@, member@, items@.map_values(|i: DbusItem| i@), id)
                == Some(resp@),
            None => dbus_signal_response(path@, interface@, member@, items@.map_values(|i: DbusItem| i@), id) is None,
        },
{
    let ghost views = items@.map_values(|i: DbusItem| i@);
    let on_server = str_eq(path, NOTIFICATION_OBJECTPATH) && str_eq(interface, NOTIFICATION_INTERFACE);
    if on_server && str_eq(member, "ActionInvoked") {
        assert(views[0] == items@[0]@ && views[1] == items@[1]@);
        match (&items[0], &items[1]) {
            (DbusItem::UInt32(nid), DbusItem::Str(action)) => {
                if *nid == id {
                    Some(ActionResponse::Custom(action.as_str()))
                } else {
                    None
                }
            },
            _ => None,
        }
    } else if on_server && str_eq(member, "NotificationClosed") {
        assert(views[0] == items@[0]@ && views[1] == items@[1]@);
        match (&items[0], &items[1]) {
            (DbusItem::UInt32(nid), DbusItem::UInt32(reason)) => {
                if *nid == id {
                    Some(ActionResponse::Closed(CloseReason::from_u32(*reason)))
                } else {
                    None
                }
            },
            _ => None,
        }
    } else {
        None
    }
}

/// The response that a message received by the zbus listener carries for
/// notification `id`: `action_body` and `closed_body` are the message body
/// read as `(u32, String)` and as `(u32, u32)`, where that succeeded.
pub open spec fn zbus_signal_response(
    is_signal: bool,
    member: Option<Seq<char>>,
    action_body: Option<(u32, Seq<char>)>,
    closed_body: Option<(u32, u32)>,
    id: u32,
) -> Option<ActionResponseView> {
    if !is_signal {
        None
    } else if member == Some("ActionInvoked"@) {
        match action_body {
            Some((nid, action)) => if nid == id { Some(ActionResponseView::Custom(action)) } else { None },
            None => None,
        }
    } else if member == Some("NotificationClosed"@) {
        match closed_body {
            Some((nid, reason)) => if nid == id { Some(ActionResponseView::Closed(close_reason_of(reason))) } else { None },
            None => None,
        }
    } else {
        None
    }
}

/// Reads a message received by the zbus listener while waiting for an action
/// on notification `id`; `Some` ends the wait with that response.
pub fn zbus_signal_response_for<'a>(
    is_signal: bool,
    member: Option<&str>,
    action_body: &'a Option<(u32, String)>,
    closed_body: Option<(u32, u32)>,
    id: u32,
) -> (r: Option<ActionResponse<'a>>)
    ensures
        match r {
            Some(resp) => zbus_signal_response(
                is_signal,
                match member { Some(m) => Some(m@), None => None },
                match action_body { Some(b) => Some((b.0, b.1@)), None => None },
                closed_body,
                id,
            ) == Some(resp@),
            None => zbus_signal_response(
                is_signal,
                match member { Some(m) => Some(m@), None => None },
                match action_body { Some(b) => Some((b.0, b.1@)), None => None },
                closed_body,
                id,
            ) is None,
        },
{
    if !is_signal {
        return None;
    }
    match member {
        Some(name) => {
            if str_eq(name, "ActionInvoked") {
                match action_body {
                    Some((nid, action)) => if *nid == id {
                        Some(ActionResponse::Custom(action.as_str()))
                    } else {
                        None
                    },
                    None => None,
                }
            } else if str_eq(name, "NotificationClosed") {
                match closed_body {
                    Some((nid, reason)) => if nid == id {
                        Some(ActionResponse::Closed(CloseReason::from_u32(reason)))
                    } else {
                        None
                    },
                    None => None,
                }
            } else {
                None
            }
        },
        None => None,
    }
}

/// What waiting for the close signal does with one received message.
#[derive(Debug, Clone, Copy, PartialEq, Eq, Structural)]
pub enum CloseWait {
    /// Keep waiting for the next message.
    Continue,
    /// Stop waiting, with the close reason if one was read.
    Done(Option<CloseReason>),
}

/// What waiting for the close signal of notification `id` does with a
/// message: a message that is no signal ends the wait without a reason; a
/// `NotificationClosed` signal ends it, with the reason when the body reads as
/// `(u32, u32)` and names `id`; any other signal is skipped.
pub open spec fn close_wait_step(
    is_signal: bool,
    member: Option<Seq<char>>,
    closed_body: Option<(u32, u32)>,
    id: u32,
) -> CloseWait {
    if !is_signal {
        CloseWait::Done(None)
    } else if member == Some("NotificationClosed"@) {
        match closed_body {
            Some((nid, reason)) => if nid == id {
                CloseWait::Done(Some(close_reason_of(reason)))
            } else {
                CloseWait::Done(None)
            },
            None => CloseWait::Done(None),
        }
    } else {
        CloseWait::Continue
    }
}

/// Reads one message received while waiting for the close signal.
pub fn close_wait_step_for(is_signal: bool, member: Option<&str>, closed_body: Option<(u32, u32)>, id: u32) -> (r: CloseWait)
    ensures
        r == close_wait_step(is_signal, match member { Some(m) => Some(m@), None => None }, closed_body, id),
{
    if !is_signal {
        return CloseWait::Done(None);
    }
    match member {
        Some(name) => {
            if str_eq(name, "NotificationClosed") {
                match closed_body {
                    Some((nid, reason)) => if nid == id {
                        CloseWait::Done(Some(CloseReason::from_u32(reason)))
                    } else {
                        CloseWait::Done(None)
                    },
                    None => CloseWait::Done(None),
                }
            } else {
                CloseWait::Continue
            }
        },
        None => CloseWait::Continue,
    }
}

/// The characters a well-known bus name may hold: ASCII letters and digits,
/// `_`, `-` and `.`.
pub open spec fn bus_name_char(c: char) -> bool {
    ('a' <= c && c <= 'z') || ('A' <= c && c <= 'Z') || ('0' <= c && c <= '9') || c == '_' || c == '-' || c
        == '.'
}

/// Whether zbus accepts a string as a well-known bus name: 3 to 255
/// characters, each an ASCII letter, digit, `_`, `-` or `.`; at least one
/// `.`; and no element starting with a `.` or a digit (so no leading dot, no
/// double dot, no digit first or right after a dot).
pub open spec fn well_known_name_valid(name: Seq<char>) -> bool {
    &&& 3 <= name.len() <= 255
    &&& forall|i: int| 0 <= i < name.len() ==> bus_name_char(#[trigger] name[i])
    &&& forall|i: int|
        0 <= i < name.len() && (#[trigger] name[i] == '.' || ('0' <= name[i] && name[i] <= '9')) ==> i > 0
            && name[i - 1] != '.'
    &&& exists|i: int| 0 <= i < name.len() && #[trigger] name[i] == '.'
}

/// Calls `zbus::names::WellKnownName::try_from` on a name and reports whether
/// zbus accepted it; zbus checks the rules of `well_known_name_valid`.
#[verifier::external_body]
fn accepts_well_known_name(name: &str) -> (r: bool)
    ensures
        r == well_known_name_valid(name@),
{
    match zbus::names::WellKnownName::try_from(name.to_owned()) {
        Ok(_) => true,
        Err(_) => false,
    }
}

/// The bus name a custom path stands for: the path joined to
/// `/de/hoodie/Notification` (an absolute path replaces it), without its
/// leading `/`, with every `/` turned into `.`.
pub open spec fn custom_bus_name(custom_path: Seq<char>) -> Seq<char> {
    replaced(without_first_slash(joined_path(CUSTOM_BUS_BASE@, custom_path)), '/', '.')
}

/// A bus that a notification server is reached at.
#[derive(Clone, Debug)]
pub struct NotificationBus {
    name: String,
}

impl View for NotificationBus {
    type V = Seq<char>;

    closed spec fn view(&self) -> Seq<char> {
        self.name@
    }
}

impl Default for NotificationBus {
    /// The bus of the desktop's notification server.
    fn default() -> (r: NotificationBus)
        ensures
            r@ == NOTIFICATION_DEFAULT_BUS@,
    {
        NotificationBus::default_bus()
    }
}

impl NotificationBus {
    /// The bus of the desktop's notification server.
    pub fn default_bus() -> (r: NotificationBus)
        ensures
            r@ == NOTIFICATION_DEFAULT_BUS@,
    {
        NotificationBus { name: owned(NOTIFICATION_DEFAULT_BUS) }
    }

    /// The bus name a custom path is joined into: the path joined to the
    /// custom base, without its leading `/`, with every `/` turned into `.`.
    fn namespaced_custom(custom_path: &str) -> (r: Option<String>)
        ensures
            r is Some,
            r matches Some(s) ==> s@ == custom_bus_name(custom_path@),
    {
        proof {
            reveal_strlit("/de/hoodie/Notification");
            reveal_strlit(".");
        }
        let joined = join_path(CUSTOM_BUS_BASE, custom_path);
        Some(replace_char(skip_first_slash(joined.as_str()), '/', "."))
    }

    /// A bus under the custom base, for testing; `None` exactly when the
    /// derived name is not a valid well-known bus name.
    pub fn custom(custom_path: &str) -> (r: Option<NotificationBus>)
        ensures
            r matches Some(b) ==> b@ == custom_bus_name(custom_path@),
            r is Some <==> well_known_name_valid(custom_bus_name(custom_path@)),
    {
        match NotificationBus::namespaced_custom(custom_path) {
            Some(name) => {
                if accepts_well_known_name(name.as_str()) {
                    Some(NotificationBus { name })
                } else {
                    None
                }
            },
            None => None,
        }
    }

    /// A copy of this bus.
    pub fn duplicate(&self) -> (r: NotificationBus)
        ensures
            r@ == self@,
    {
        NotificationBus { name: self.name.clone() }
    }

    /// The bus name.
    pub fn to_name(&self) -> (r: String)
        ensures
            r@ == self@,
    {
        self.name.clone()
    }

    /// The bus name, consuming the bus.
    pub fn into_name(self) -> (r: String)
        ensures
            r@ == self@,
    {
        self.name
    }
}

/// The id a server answered a `Notify` call with: the first item of the reply
/// when it is an unsigned 32-bit integer, `0` otherwise.
pub fn notify_reply_id(items: &Vec<DbusItem>) -> (r: u32)
    ensures
        r == (if items@.len() > 0 && items@[0]@ is UInt32 {
            items@[0]@->UInt32_0
        } else {
            0u32
        }),
{
    if items.len() > 0 {
        match &items[0] {
            DbusItem::UInt32(id) => *id,
            _ => 0,
        }
    } else {
        0
    }
}

/// The texts among some items, in order: each string item's text, every
/// other item left out.
pub open spec fn string_items(items: Seq<DbusItemView>) -> Seq<Seq<char>>
    decreases items.len(),
{
    if items.len() == 0 {
        Seq::empty()
    } else {
        let rest = string_items(items.drop_last());
        match items.last() {
            DbusItemView::Str(s) => rest.push(s),
            _ => rest,
        }
    }
}

/// The capabilities a server answered a `GetCapabilities` call with, given
/// the items of the array that is the reply's first item (`None` when the
/// first item is no array): the string items, in order.
pub fn capabilities_from_reply(array: Option<&Vec<DbusItem>>) -> (r: Vec<String>)
    ensures
        r@.map_values(|s: String| s@) == (match array {
            Some(items) => string_items(items@.map_values(|i: DbusItem| i@)),
            None => Seq::<Seq<char>>::empty(),
        }),
{
    let mut caps: Vec<String> = Vec::new();
    match array {
        None => {
            assert(caps@.map_values(|s: String| s@) =~= Seq::<Seq<char>>::empty());
        },
        Some(items) => {
            let ghost views = items@.map_values(|i: DbusItem| i@);
            let mut i: usize = 0;
            while i < items.len()
                invariant
                    i <= items.len(),
                    views == items@.map_values(|i: DbusItem| i@),
                    caps@.map_values(|s: String| s@) == string_items(views.take(i as int)),
                decreases items.len() - i,
            {
                let ghost before = caps@;
                assert(views.take(i + 1).drop_last() =~= views.take(i as int));
                assert(views.take(i + 1).last() == items@[i as int]@);
                match &items[i] {
                    DbusItem::Str(cap) => {
                        caps.push(cap.clone());
                        assert(caps@.map_values(|s: String| s@) =~= before.map_values(|s: String| s@).push(cap@));
                    },
                    _ => {},
                }
                i = i + 1;
            }
            assert(views.take(items.len() as int) =~= views);
        },
    }
    caps
}

} // verus!
