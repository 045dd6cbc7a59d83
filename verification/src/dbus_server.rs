//! The experimental notification server of the dbus-rs stack: which method a
//! call names, what it answers, and when it stops.
use vstd::prelude::*;

use crate::hints::{Hint, HintView};
use crate::message::{
    item_i32, message_hint, message_text, peeled, unwrap_message_str, unwrap_message_string, DbusItem, DbusItemView,
};
use crate::text::{owned, str_eq};
use crate::ServerInformation;

verus! {

/// A method of the `org.freedesktop.Notifications` interface that the server
/// offers.
#[derive(Debug, Clone, Copy, PartialEq, Eq, Structural)]
pub enum ServerCall {
    /// `Notify`: show a notification.
    Notify,
    /// `CloseNotification`: close one.
    CloseNotification,
    /// `Stop`: stop the server.
    Stop,
    /// `GetCapabilities`: list what the server supports.
    GetCapabilities,
    /// `GetServerInformation`: describe the server.
    GetServerInformation,
}

/// The method a member name stands for, if the server offers it.
pub open spec fn call_named(member: Seq<char>) -> Option<ServerCall> {
    if member == "Notify"@ {
        Some(ServerCall::Notify)
    } else if member == "CloseNotification"@ {
        Some(ServerCall::CloseNotification)
    } else if member == "Stop"@ {
        Some(ServerCall::Stop)
    } else if member == "GetCapabilities"@ {
        Some(ServerCall::GetCapabilities)
    } else if member == "GetServerInformation"@ {
        Some(ServerCall::GetServerInformation)
    } else {
        None
    }
}

/// The method a member name stands for; `None` is answered with a failure
/// error.
pub fn call_of_member(member: &str) -> (r: Option<ServerCall>)
    ensures
        r == call_named(member@),
{
    if str_eq(member, "Notify") {
        Some(ServerCall::Notify)
    } else if str_eq(member, "CloseNotification") {
        Some(ServerCall::CloseNotification)
    } else if str_eq(member, "Stop") {
        Some(ServerCall::Stop)
    } else if str_eq(member, "GetCapabilities") {
        Some(ServerCall::GetCapabilities)
    } else if str_eq(member, "GetServerInformation") {
        Some(ServerCall::GetServerInformation)
    } else {
        None
    }
}

/// The answer to a call.
#[derive(Debug)]
pub enum ServerReply {
    /// A notification id.
    Id(i32),
    /// No value.
    Nothing,
    /// The list of capabilities.
    Capabilities(Vec<String>),
    /// The description of the server.
    Information(ServerInformation),
}

/// The id the server answers every `Notify` call with.
pub const NOTIFY_REPLY_ID: i32 = 42;

/// An experimental notification server: a counter for the notifications it
/// received and a flag that stops it.
#[derive(Debug)]
pub struct NotificationServer {
    /// Counter for generating notification ids.
    pub counter: u32,
    /// Set once the server was asked to stop.
    pub stop: bool,
}

impl NotificationServer {
    /// A server that has received nothing and runs.
    pub fn new() -> (s: NotificationServer)
        ensures
            s.counter == 0,
            !s.stop,
    {
        NotificationServer { counter: 0, stop: false }
    }

    /// Answers a call. A `Notify` call hands the current counter to the
    /// callback as the notification's id, counts up and answers `42`;
    /// `Stop` sets the stop flag; `GetCapabilities` lists `"body"`;
    /// `GetServerInformation` names the daemon with the given version and
    /// specification 1.1; `CloseNotification` answers nothing. The second
    /// result is the id handed to the callback, for `Notify` only.
    pub fn handle(&mut self, call: ServerCall, version: &str) -> (r: (ServerReply, Option<u32>))
        requires
            call == ServerCall::Notify ==> old(self).counter < u32::MAX,
        ensures
            call == ServerCall::Notify ==> (r.0 matches ServerReply::Id(v) && v == NOTIFY_REPLY_ID) && r.1 == Some(
                old(self).counter,
            ) && final(self).counter == old(self).counter + 1 && final(self).stop == old(self).stop,
            call == ServerCall::Stop ==> (r.0 matches ServerReply::Nothing) && r.1 is None && final(self).stop
                && final(self).counter == old(self).counter,
            call == ServerCall::CloseNotification ==> (r.0 matches ServerReply::Nothing) && r.1 is None && *final(self) == *old(self),
            call == ServerCall::GetCapabilities ==> (r.0 matches ServerReply::Capabilities(caps) && caps@.len() == 1
                && caps@[0]@ == "body"@) && r.1 is None && *final(self) == *old(self),
            call == ServerCall::GetServerInformation ==> (r.0 matches ServerReply::Information(info) && info.name@
                == "notify-rust daemon"@ && info.vendor@ == "notify-rust"@ && info.version@ == version@
                && info.spec_version@ == "1.1"@) && r.1 is None && *final(self) == *old(self),
    {
        match call {
            ServerCall::Notify => {
                let id = self.counter;
                self.counter = self.counter + 1;
                (ServerReply::Id(NOTIFY_REPLY_ID), Some(id))
            },
            ServerCall::CloseNotification => (ServerReply::Nothing, None),
            ServerCall::Stop => {
                self.stop = true;
                (ServerReply::Nothing, None)
            },
            ServerCall::GetCapabilities => {
                let mut caps: Vec<String> = Vec::new();
                caps.push(owned("body"));
                (ServerReply::Capabilities(caps), None)
            },
            ServerCall::GetServerInformation => (
                ServerReply::Information(
                    ServerInformation {
                        name: owned("notify-rust daemon"),
                        vendor: owned("notify-rust"),
                        version: owned(version),
                        spec_version: owned("1.1"),
                    },
                ),
                None,
            ),
        }
    }

    /// Whether the server goes on listening after the message it just handled.
    pub fn keeps_running(&self) -> (r: bool)
        ensures
            r == !self.stop,
    {
        !self.stop
    }
}

/// The fields of a `Notify` call that the server reads directly from its
/// items; hints and actions come as arrays and are read apart.
#[derive(Debug)]
pub struct NotifyCall {
    /// The sending application (item 0).
    pub appname: String,
    /// The summary (item 3).
    pub summary: String,
    /// The body (item 4).
    pub body: String,
    /// The icon (item 2).
    pub icon: String,
    /// The requested timeout (item 7).
    pub timeout: i32,
}

/// The text of an optional item that is a string; empty otherwise.
pub open spec fn plain_text(v: DbusItemView) -> Seq<char> {
    match v {
        DbusItemView::Str(s) => s,
        _ => Seq::empty(),
    }
}

/// Reads the fields of a `Notify` call from its items: the application name
/// through a variant, the summary, body and icon only as plain strings, and
/// the timeout as a signed 32-bit integer through variants.
pub fn read_notify_call(items: &Vec<DbusItem>) -> (r: NotifyCall)
    requires
        items.len() >= 8,
        item_i32(items@[7]@) is Some,
    ensures
        r.appname@ == message_text(items@[0]@),
        r.summary@ == plain_text(items@[3]@),
        r.body@ == plain_text(items@[4]@),
        r.icon@ == plain_text(items@[2]@),
        r.timeout == item_i32(items@[7]@)->0,
{
    let timeout = match items[7].inner_i32() {
        Some(t) => t,
        None => 0,
    };
    NotifyCall {
        appname: unwrap_message_str(&items[0]),
        summary: unwrap_message_string(Some(&items[3])),
        body: unwrap_message_string(Some(&items[4])),
        icon: unwrap_message_string(Some(&items[2])),
        timeout,
    }
}

/// The text of an action item: the string inside any number of variants.
pub open spec fn action_text(v: DbusItemView) -> Seq<char> {
    match peeled(v) {
        DbusItemView::Str(s) => s,
        _ => Seq::empty(),
    }
}

/// A notification as the server hands it to its callback.
#[derive(Debug)]
pub struct ReceivedNotification {
    /// The fields read directly from the call.
    pub call: NotifyCall,
    /// The flat `[identifier, label, ...]` list of actions.
    pub actions: Vec<String>,
    /// The hints of the dictionary, each once, in the order they first
    /// appear.
    pub hints: Vec<Hint>,
    /// The id the server gave it: the number of notifications received
    /// before it.
    pub id: u32,
}

/// The hints that a call's dictionary entries read as, one per entry.
pub open spec fn entry_hints(entries: Seq<(DbusItem, DbusItem)>) -> Seq<HintView> {
    entries.map_values(|e: (DbusItem, DbusItem)| message_hint(e.0@, e.1@))
}

/// The hints of a sequence taken as a set: each once, in the order of its
/// first appearance.
pub open spec fn distinct_hints(s: Seq<HintView>) -> Seq<HintView>
    decreases s.len(),
{
    if s.len() == 0 {
        Seq::empty()
    } else {
        let rest = distinct_hints(s.drop_last());
        if rest.contains(s.last()) {
            rest
        } else {
            rest.push(s.last())
        }
    }
}

/// The distinct hints hold no hint twice and hold exactly the hints of the
/// sequence.
pub proof fn distinct_hints_is_the_set(s: Seq<HintView>)
    ensures
        distinct_hints(s).no_duplicates(),
        forall|h: HintView| #[trigger] distinct_hints(s).contains(h) <==> s.contains(h),
    decreases s.len(),
{
    if s.len() > 0 {
        let init = s.drop_last();
        distinct_hints_is_the_set(init);
        let rest = distinct_hints(init);
        assert forall|h: HintView| #[trigger] distinct_hints(s).contains(h) <==> s.contains(h) by {
            if s.contains(h) {
                let i = choose|i: int| 0 <= i < s.len() && s[i] == h;
                if i < s.len() - 1 {
                    assert(init[i] == h);
                }
            }
            if init.contains(h) {
                let i = choose|i: int| 0 <= i < init.len() && init[i] == h;
                assert(s[i] == h);
            }
            if !rest.contains(s.last()) {
                let pushed = rest.push(s.last());
                if pushed.contains(h) {
                    let i = choose|i: int| 0 <= i < pushed.len() && pushed[i] == h;
                    if i < rest.len() {
                        assert(rest[i] == h);
                    }
                }
                if rest.contains(h) {
                    let i = choose|i: int| 0 <= i < rest.len() && rest[i] == h;
                    assert(pushed[i] == h);
                }
                assert(pushed[rest.len() as int] == s.last());
            }
        }
        if !rest.contains(s.last()) {
            let pushed = rest.push(s.last());
            assert forall|i: int, j: int| 0 <= i < pushed.len() && 0 <= j < pushed.len() && i != j implies pushed[i]
                != pushed[j] by {
                if i < rest.len() && j < rest.len() {
                    assert(rest[i] != rest[j]);
                } else if i < rest.len() {
                    assert(rest[i] == pushed[i]);
                } else {
                    assert(rest[j] == pushed[j]);
                }
            }
        }
    }
}

impl NotificationServer {
    /// Receives a `Notify` call: its items, the items of its action array and
    /// the key and value items of its hints dictionary. The callback gets a
    /// notification with the call's fields, actions and hints, whose id is
    /// the number of notifications received before; the server counts it and
    /// answers `42`.
    pub fn receive_notify(
        &mut self,
        items: &Vec<DbusItem>,
        action_items: &Vec<DbusItem>,
        hint_entries: &Vec<(DbusItem, DbusItem)>,
    ) -> (r: (ServerReply, ReceivedNotification))
        requires
            old(self).counter < u32::MAX,
            items.len() >= 8,
            item_i32(items@[7]@) is Some,
            forall|i: int| 0 <= i < action_items.len() ==> peeled(#[trigger] action_items@[i]@) is Str,
        ensures
            r.0 matches ServerReply::Id(v) && v == NOTIFY_REPLY_ID,
            final(self).counter == old(self).counter + 1,
            final(self).stop == old(self).stop,
            r.1.id == old(self).counter,
            r.1.call.appname@ == message_text(items@[0]@),
            r.1.call.summary@ == plain_text(items@[3]@),
            r.1.call.body@ == plain_text(items@[4]@),
            r.1.call.icon@ == plain_text(items@[2]@),
            r.1.call.timeout == item_i32(items@[7]@)->0,
            r.1.actions@.map_values(|s: String| s@) == action_items@.map_values(|i: DbusItem| action_text(i@)),
            r.1.hints@.map_values(|h: Hint| h@) == distinct_hints(entry_hints(hint_entries@)),
    {
        let call = read_notify_call(items);
        let mut actions: Vec<String> = Vec::new();
        let mut i: usize = 0;
        while i < action_items.len()
            invariant
                i <= action_items.len(),
                actions@.len() == i,
                forall|k: int| 0 <= k < i ==> (#[trigger] actions@[k])@ == action_text(action_items@[k]@),
            decreases action_items.len() - i,
        {
            let text = match action_items[i].peel() {
                DbusItem::Str(s) => s.clone(),
                _ => String::new(),
            };
            actions.push(text);
            i = i + 1;
        }
        assert(actions@.map_values(|s: String| s@) =~= action_items@.map_values(|i: DbusItem| action_text(i@)));
        let mut hints: Vec<Hint> = Vec::new();
        let mut j: usize = 0;
        while j < hint_entries.len()
            invariant
                j <= hint_entries.len(),
                hints@.map_values(|h: Hint| h@) == distinct_hints(entry_hints(hint_entries@.take(j as int))),
            decreases hint_entries.len() - j,
        {
            let entry = &hint_entries[j];
            let hint = Hint::from_message_items(&entry.0, &entry.1);
            let ghost before = hints@.map_values(|h: Hint| h@);
            let mut k: usize = 0;
            let mut seen = false;
            while k < hints.len()
                invariant
                    k <= hints.len(),
                    before == hints@.map_values(|h: Hint| h@),
                    seen == exists|m: int| 0 <= m < k && before[m] == hint@,
                decreases hints.len() - k,
            {
                let same = hints[k].same_as(&hint);
                proof {
                    assert(before[k as int] == hints@[k as int]@);
                    if !same {
                        assert forall|m: int| 0 <= m < k + 1 && before[m] == hint@ implies 0 <= m < k by {}
                    }
                }
                if same {
                    seen = true;
                }
                k = k + 1;
            }
            proof {
                let taken = hint_entries@.take(j + 1);
                assert(taken.drop_last() =~= hint_entries@.take(j as int));
                assert(entry_hints(taken).drop_last() =~= entry_hints(hint_entries@.take(j as int)));
                assert(entry_hints(taken).last() == hint@);
                assert(seen == before.contains(hint@)) by {
                    if before.contains(hint@) {
                        let m = choose|m: int| 0 <= m < before.len() && before[m] == hint@;
                        assert(0 <= m < k);
                    }
                }
            }
            if !seen {
                hints.push(hint);
                assert(hints@.map_values(|h: Hint| h@) =~= before.push(hint@));
            }
            j = j + 1;
        }
        assert(hint_entries@.take(hint_entries.len() as int) =~= hint_entries@);
        let (reply, id) = self.handle(ServerCall::Notify, "");
        let id = match id {
            Some(n) => n,
            None => 0,
        };
        (reply, ReceivedNotification { call, actions, hints, id })
    }
}

} // verus!
