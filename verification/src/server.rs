//! The decisions of the notification server that this crate can run: how
//! incoming actions are read, how long a notification stays open, and what
//! happens on each event while it is open.
use vstd::prelude::*;

use crate::action::CloseReason;
use crate::hints::{Hint, HintView};
use crate::text::owned;
use crate::timeout::{timeout_of_i32, Timeout};

verus! {

/// An action as a notification server receives it.
#[derive(Debug, PartialEq)]
pub struct Action {
    /// The identifier reported back when the action is invoked.
    pub tag: String,
    /// The text shown for the action.
    pub description: String,
}

/// The abstract value of an [`Action`]: tag and description.
pub open spec fn action_view(a: &Action) -> (Seq<char>, Seq<char>) {
    (a.tag@, a.description@)
}

/// The actions read from a flat `[description, tag, description, tag, ...]`
/// list: one for each complete pair, an odd last element is dropped.
pub open spec fn actions_from_flat(raw: Seq<Seq<char>>) -> Seq<(Seq<char>, Seq<char>)> {
    Seq::new(raw.len() / 2, |k: int| (raw[2 * k + 1], raw[2 * k]))
}

impl Action {
    /// An action with the given description and tag.
    pub fn new(description: &str, tag: &str) -> (a: Action)
        ensures
            action_view(&a) == (tag@, description@),
    {
        Action { tag: owned(tag), description: owned(description) }
    }

    /// An action whose description is its tag.
    pub fn from_single(key: &str) -> (a: Action)
        ensures
            action_view(&a) == (key@, key@),
    {
        Action { tag: owned(key), description: owned(key) }
    }

    /// An action whose description is its tag (the conversion from `&str`).
    pub fn from_str(value: &str) -> (a: Action)
        ensures
            action_view(&a) == (value@, value@),
    {
        Action::from_single(value)
    }

    /// Reads the actions of a `Notify` call from its flat list of
    /// alternating descriptions and tags.
    pub fn from_vec(raw: &[String]) -> (r: Vec<Action>)
        ensures
            r@.map_values(|a: Action| action_view(&a)) == actions_from_flat(raw@.map_values(|s: String| s@)),
    {
        let ghost flat = raw@.map_values(|s: String| s@);
        let mut out: Vec<Action> = Vec::new();
        let mut i: usize = 0;
        while i + 1 < raw.len()
            invariant
                i % 2 == 0,
                i <= raw.len(),
                flat == raw@.map_values(|s: String| s@),
                out@.len() == i / 2,
                forall|k: int| 0 <= k < out@.len() ==> #[trigger] action_view(&out@[k]) == (flat[2 * k + 1], flat[2 * k]),
            decreases raw.len() - i,
        {
            out.push(Action::new(raw[i].as_str(), raw[i + 1].as_str()));
            i = i + 2;
        }
        assert(out@.map_values(|a: Action| action_view(&a)) =~= actions_from_flat(flat));
        out
    }
}

/// The hints among a list of read results, in order.
pub open spec fn readable_hints(raw: Seq<Result<Hint, String>>) -> Seq<HintView> {
    raw.filter_map(|x: Result<Hint, String>| readable_hint(x))
}

/// The hint of a read result, if it was read.
pub open spec fn readable_hint(x: Result<Hint, String>) -> Option<HintView> {
    match x {
        Ok(h) => Some(h@),
        Err(_) => None,
    }
}

/// Keeps the hints that could be read, in order, and drops the others.
#[verifier::loop_isolation(false)]
pub fn collect_hints(raw: Vec<Result<Hint, String>>) -> (r: Vec<Hint>)
    ensures
        r@.map_values(|h: Hint| h@) == readable_hints(raw@),
{
    let ghost src = raw@;
    let ghost f = |x: Result<Hint, String>| readable_hint(x);
    let mut out: Vec<Hint> = Vec::new();
    let mut rest = raw;
    let n = rest.len();
    let mut i: usize = 0;
    while i < n
        invariant
            n == src.len(),
            i <= n,
            rest@ == src.skip(i as int),
            out@.map_values(|h: Hint| h@) == src.take(i as int).filter_map(f),
        decreases n - i,
    {
        let item = rest.remove(0);
        proof {
            assert(item == src[i as int]);
            src.lemma_filter_map_take_succ(f, i as int);
        }
        let ghost before = out@;
        match item {
            Ok(h) => {
                out.push(h);
                proof {
                    assert(readable_hint(src[i as int]) == Some(h@));
                    assert(f(src[i as int]) == Some(h@));
                    assert(out@.map_values(|h: Hint| h@) =~= before.map_values(|h: Hint| h@) + seq![h@]);
                }
            },
            Err(_) => {
                assert(readable_hint(src[i as int]) is None);
                assert(f(src[i as int]) is None);
            },
        }
        proof {
            assert(out@.map_values(|h: Hint| h@) =~= src.take(i + 1).filter_map(f));
            assert(rest@ =~= src.skip(i + 1));
        }
        i = i + 1;
    }
    assert(src.take(n as int) =~= src);
    out
}

/// Configuration of the notification server.
#[derive(Clone, Debug)]
pub struct NotificationServerConfig {
    /// Milliseconds after which a notification with the server default
    /// timeout expires.
    pub default_timeout: u64,
}

impl NotificationServerConfig {
    /// The default configuration: notifications expire after 3000 ms.
    pub fn default_config() -> (c: NotificationServerConfig)
        ensures
            c.default_timeout == 3000,
    {
        NotificationServerConfig { default_timeout: 3000 }
    }
}

impl Default for NotificationServerConfig {
    /// The default configuration: notifications expire after 3000 ms.
    fn default() -> (c: NotificationServerConfig)
        ensures
            c.default_timeout == 3000,
    {
        NotificationServerConfig::default_config()
    }
}

/// Time in milliseconds below which the server does not close a notification,
/// so that the reply to the request is not overtaken.
pub const MINIMUM_TIMEOUT: u64 = 10;

/// Milliseconds until a notification with the requested timeout closes, or
/// `None` when it never expires: `0` never expires, a negative timeout takes
/// the default, and a timeout under the minimum is raised to it.
pub open spec fn close_timeout_of(timeout: i32, default_timeout: u64) -> Option<u64> {
    if timeout == 0 {
        None
    } else if timeout < 0 {
        Some(default_timeout)
    } else if timeout < MINIMUM_TIMEOUT {
        Some(MINIMUM_TIMEOUT)
    } else {
        Some(timeout as u64)
    }
}

/// Milliseconds until a notification with the requested timeout closes.
pub fn close_timeout(timeout: i32, default_timeout: u64) -> (r: Option<u64>)
    ensures
        r == close_timeout_of(timeout, default_timeout),
{
    if timeout == 0 {
        None
    } else if timeout < 0 {
        Some(default_timeout)
    } else if (timeout as u64) < MINIMUM_TIMEOUT {
        Some(MINIMUM_TIMEOUT)
    } else {
        Some(timeout as u64)
    }
}

/// Whether a received notification stays open after an action: it is
/// resident, or it never times out.
pub open spec fn is_persistent(hints: Seq<HintView>, timeout: i32) -> bool {
    hints.contains(HintView::Resident(true)) || timeout_of_i32(timeout) == Timeout::Never
}

/// Whether a received notification stays open after an action.
pub fn persistent(hints: &Vec<Hint>, timeout: i32) -> (r: bool)
    ensures
        r == is_persistent(hints@.map_values(|h: Hint| h@), timeout),
{
    let ghost views = hints@.map_values(|h: Hint| h@);
    let mut i: usize = 0;
    while i < hints.len()
        invariant
            i <= hints.len(),
            views == hints@.map_values(|h: Hint| h@),
            forall|k: int| 0 <= k < i ==> views[k] != HintView::Resident(true),
        decreases hints.len() - i,
    {
        match &hints[i] {
            Hint::Resident(true) => {
                assert(views[i as int] == HintView::Resident(true));
                return true;
            },
            _ => {},
        }
        i = i + 1;
    }
    Timeout::from_i32(timeout) == Timeout::Never
}

/// What ended a notification's handler task or receive loop with an error.
#[derive(Debug, Clone, PartialEq, Eq)]
pub enum Failure {
    /// The `ActionInvoked` signal could not be sent.
    ActionSignal(String),
    /// Receiving an action failed.
    ReceiveAction(String),
    /// Receiving a close request failed.
    ReceiveClose(String),
    /// The handler reported an error.
    Handler(String),
}

/// Something that happened while a received notification was open.
#[derive(Debug)]
pub enum ServerEvent {
    /// An action arrived from the user interface, or receiving it failed.
    ActionReceived(Result<String, String>),
    /// A close request arrived from the user interface, or receiving it failed.
    CloseReceived(Result<CloseReason, String>),
    /// The handler finished: with a close reason, without one, or with an error.
    HandlerFinished(Result<Option<CloseReason>, String>),
    /// The notification's timeout elapsed.
    Expired,
}

/// What the server does next with an open notification.
#[derive(Debug)]
pub enum ServerDecision {
    /// Keep waiting for events.
    Continue,
    /// Send the `ActionInvoked` signal for this action, then report how that went.
    InvokeAction(String),
    /// Send the `NotificationClosed` signal with this reason and stop.
    Close(CloseReason),
    /// Stop with this error.
    Fail(Failure),
}

/// The abstract value of a [`Failure`]: what failed, and its message.
pub enum FailureView {
    ActionSignal(Seq<char>),
    ReceiveAction(Seq<char>),
    ReceiveClose(Seq<char>),
    Handler(Seq<char>),
}

/// The abstract value of a [`Failure`].
pub open spec fn failure_view(f: &Failure) -> FailureView {
    match f {
        Failure::ActionSignal(m) => FailureView::ActionSignal(m@),
        Failure::ReceiveAction(m) => FailureView::ReceiveAction(m@),
        Failure::ReceiveClose(m) => FailureView::ReceiveClose(m@),
        Failure::Handler(m) => FailureView::Handler(m@),
    }
}

/// The abstract value of a [`ServerDecision`].
pub enum Decision {
    Continue,
    InvokeAction(Seq<char>),
    Close(CloseReason),
    Fail(FailureView),
}

/// The abstract value of a [`ServerDecision`].
pub open spec fn decision_of(d: &ServerDecision) -> Decision {
    match d {
        ServerDecision::Continue => Decision::Continue,
        ServerDecision::InvokeAction(a) => Decision::InvokeAction(a@),
        ServerDecision::Close(r) => Decision::Close(*r),
        ServerDecision::Fail(f) => Decision::Fail(failure_view(f)),
    }
}

/// What the server does on an event: an arriving action is invoked, a close
/// request closes with its reason, a finished handler closes with the reason
/// it gave (dismissed when it gave none), expiry closes as expired, and an
/// error stops the notification with a failure that names what failed.
pub open spec fn decision_on(event: &ServerEvent) -> Decision {
    match event {
        ServerEvent::ActionReceived(Ok(a)) => Decision::InvokeAction(a@),
        ServerEvent::ActionReceived(Err(e)) => Decision::Fail(FailureView::ReceiveAction(e@)),
        ServerEvent::CloseReceived(Ok(r)) => Decision::Close(*r),
        ServerEvent::CloseReceived(Err(e)) => Decision::Fail(FailureView::ReceiveClose(e@)),
        ServerEvent::HandlerFinished(Ok(Some(r))) => Decision::Close(*r),
        ServerEvent::HandlerFinished(Ok(None)) => Decision::Close(CloseReason::Dismissed),
        ServerEvent::HandlerFinished(Err(e)) => Decision::Fail(FailureView::Handler(e@)),
        ServerEvent::Expired => Decision::Close(CloseReason::Expired),
    }
}

/// What the server does after trying to send the `ActionInvoked` signal: a
/// failure stops the notification, otherwise a persistent notification stays
/// open and any other closes as closed by action.
pub open spec fn decision_after_invoke(persistent: bool, sent: Result<(), String>) -> Decision {
    match sent {
        Err(e) => Decision::Fail(FailureView::ActionSignal(e@)),
        Ok(()) => if persistent {
            Decision::Continue
        } else {
            Decision::Close(CloseReason::CloseAction)
        },
    }
}

/// Decides what to do on an event while a notification is open.
pub fn decide(event: ServerEvent) -> (d: ServerDecision)
    ensures
        decision_of(&d) == decision_on(&event),
{
    match event {
        ServerEvent::ActionReceived(Ok(action)) => ServerDecision::InvokeAction(action),
        ServerEvent::ActionReceived(Err(e)) => ServerDecision::Fail(Failure::ReceiveAction(e)),
        ServerEvent::CloseReceived(Ok(reason)) => ServerDecision::Close(reason),
        ServerEvent::CloseReceived(Err(e)) => ServerDecision::Fail(Failure::ReceiveClose(e)),
        ServerEvent::HandlerFinished(Ok(Some(reason))) => ServerDecision::Close(reason),
        ServerEvent::HandlerFinished(Ok(None)) => ServerDecision::Close(CloseReason::Dismissed),
        ServerEvent::HandlerFinished(Err(e)) => ServerDecision::Fail(Failure::Handler(e)),
        ServerEvent::Expired => ServerDecision::Close(CloseReason::Expired),
    }
}

/// Decides what to do once the `ActionInvoked` signal was sent, or failed to be.
pub fn decide_after_invoke(persistent: bool, sent: Result<(), String>) -> (d: ServerDecision)
    ensures
        decision_of(&d) == decision_after_invoke(persistent, sent),
{
    match sent {
        Err(e) => ServerDecision::Fail(Failure::ActionSignal(e)),
        Ok(()) => if persistent {
            ServerDecision::Continue
        } else {
            ServerDecision::Close(CloseReason::CloseAction)
        },
    }
}

/// A signal the server emits about an open notification.
pub enum ServerSignal {
    /// `ActionInvoked` with this action.
    ActionInvoked(Seq<char>),
    /// `NotificationClosed` with this reason.
    NotificationClosed(CloseReason),
}

/// The signals the server emits for a notification while it receives the
/// events `events` in order, when every `ActionInvoked` signal is sent: an
/// action emits `ActionInvoked` and then, unless the notification is
/// persistent, closes it; a close request, a finished handler or expiry
/// closes it; an error ends it silently. Events after the end are ignored.
pub open spec fn session_signals(events: Seq<ServerEvent>, persistent: bool) -> Seq<ServerSignal>
    decreases events.len(),
{
    if events.len() == 0 {
        Seq::empty()
    } else {
        match decision_on(&events[0]) {
            Decision::Continue => session_signals(events.drop_first(), persistent),
            Decision::InvokeAction(a) => seq![ServerSignal::ActionInvoked(a)] + match decision_after_invoke(
                persistent,
                Ok(()),
            ) {
                Decision::Continue => session_signals(events.drop_first(), persistent),
                Decision::Close(r) => seq![ServerSignal::NotificationClosed(r)],
                _ => Seq::empty(),
            },
            Decision::Close(r) => seq![ServerSignal::NotificationClosed(r)],
            Decision::Fail(_) => Seq::empty(),
        }
    }
}

/// The number of `NotificationClosed` signals among some signals.
pub open spec fn close_count(signals: Seq<ServerSignal>) -> nat
    decreases signals.len(),
{
    if signals.len() == 0 {
        0
    } else {
        (if signals[0] is NotificationClosed { 1nat } else { 0nat }) + close_count(signals.drop_first())
    }
}

/// The reason of the close that a sequence of events leads to, if any: the
/// first event that closes the notification decides it, and an action closes
/// a notification that is not persistent as closed by action.
pub open spec fn first_close(events: Seq<ServerEvent>, persistent: bool) -> Option<CloseReason>
    decreases events.len(),
{
    if events.len() == 0 {
        None
    } else {
        match decision_on(&events[0]) {
            Decision::Continue => first_close(events.drop_first(), persistent),
            Decision::InvokeAction(_) => if persistent {
                first_close(events.drop_first(), persistent)
            } else {
                Some(CloseReason::CloseAction)
            },
            Decision::Close(r) => Some(r),
            Decision::Fail(_) => None,
        }
    }
}

proof fn lemma_close_count_prepend(x: ServerSignal, rest: Seq<ServerSignal>)
    ensures
        close_count(seq![x] + rest) == (if x is NotificationClosed { 1nat } else { 0nat }) + close_count(rest),
{
    assert((seq![x] + rest).drop_first() =~= rest);
}

/// At most one `NotificationClosed` follows a notification, as the last
/// signal, and its reason is the one the first closing event sets; every
/// action before it emits `ActionInvoked`.
pub proof fn at_most_one_close(events: Seq<ServerEvent>, persistent: bool)
    ensures
        close_count(session_signals(events, persistent)) <= 1,
        close_count(session_signals(events, persistent)) == 1 <==> first_close(events, persistent) is Some,
        first_close(events, persistent) matches Some(r) ==> session_signals(events, persistent).last()
            == ServerSignal::NotificationClosed(r),
    decreases events.len(),
{
    if events.len() > 0 {
        let rest = events.drop_first();
        at_most_one_close(rest, persistent);
        let tail = session_signals(rest, persistent);
        match decision_on(&events[0]) {
            Decision::InvokeAction(a) => {
                let x = ServerSignal::ActionInvoked(a);
                if persistent {
                    lemma_close_count_prepend(x, tail);
                    if first_close(rest, persistent) is Some {
                        assert((seq![x] + tail).last() == tail.last());
                    }
                } else {
                    let c = ServerSignal::NotificationClosed(CloseReason::CloseAction);
                    lemma_close_count_prepend(x, seq![c]);
                    lemma_close_count_prepend(c, Seq::empty());
                    assert(seq![c] =~= seq![c] + Seq::<ServerSignal>::empty());
                }
            },
            Decision::Close(r) => {
                let c = ServerSignal::NotificationClosed(r);
                lemma_close_count_prepend(c, Seq::empty());
                assert(seq![c] =~= seq![c] + Seq::<ServerSignal>::empty());
            },
            _ => {},
        }
    }
}

/// Where an open notification's session stands.
pub enum Phase {
    /// Waiting for events.
    Open,
    /// The `ActionInvoked` signal for this action is being sent.
    Invoking(Seq<char>),
    /// Closed or failed; nothing more happens.
    Ended,
}

/// The abstract value of a [`Session`]: whether the notification is
/// persistent, where its session stands and the signals emitted so far.
pub struct SessionView {
    pub persistent: bool,
    pub phase: Phase,
    pub signals: Seq<ServerSignal>,
}

/// The server's side of one received notification, from the moment it is
/// shown until it closes or fails.
pub struct Session {
    persistent: bool,
    pending: Option<String>,
    ended: bool,
    signals: Ghost<Seq<ServerSignal>>,
}

impl View for Session {
    type V = SessionView;

    closed spec fn view(&self) -> SessionView {
        SessionView {
            persistent: self.persistent,
            phase: if self.ended {
                Phase::Ended
            } else {
                match self.pending {
                    Some(a) => Phase::Invoking(a@),
                    None => Phase::Open,
                }
            },
            signals: self.signals@,
        }
    }
}

/// What every session keeps: at most one `NotificationClosed` among its
/// signals, as the last of them, and none while it is not ended.
pub open spec fn session_ok(v: SessionView) -> bool {
    &&& close_count(v.signals) <= 1
    &&& !(v.phase is Ended) ==> close_count(v.signals) == 0
    &&& close_count(v.signals) == 1 ==> v.signals.last() is NotificationClosed
}

proof fn lemma_close_count_append(s: Seq<ServerSignal>, x: ServerSignal)
    ensures
        close_count(s.push(x)) == close_count(s) + (if x is NotificationClosed { 1nat } else { 0nat }),
    decreases s.len(),
{
    if s.len() == 0 {
        assert(s.push(x)[0] == x);
        assert(s.push(x).drop_first() =~= Seq::<ServerSignal>::empty());
        assert(close_count(Seq::<ServerSignal>::empty()) == 0);
    } else {
        lemma_close_count_append(s.drop_first(), x);
        assert(s.push(x)[0] == s[0]);
        assert(s.push(x).drop_first() =~= s.drop_first().push(x));
    }
}

impl Session {
    /// The session of a notification that was just shown.
    pub fn new(persistent: bool) -> (s: Session)
        ensures
            s@.persistent == persistent,
            s@.phase is Open,
            s@.signals == Seq::<ServerSignal>::empty(),
            session_ok(s@),
    {
        Session { persistent, pending: None, ended: false, signals: Ghost(Seq::empty()) }
    }

    /// Handles an event of an open session: decides as [`decide`] does,
    /// emits `NotificationClosed` when that decision closes it, waits for
    /// the `ActionInvoked` signal to be sent when it invokes an action, and
    /// ends on a close or a failure.
    pub fn step(&mut self, event: ServerEvent) -> (d: ServerDecision)
        requires
            old(self)@.phase is Open,
            session_ok(old(self)@),
        ensures
            decision_of(&d) == decision_on(&event),
            final(self)@.persistent == old(self)@.persistent,
            final(self)@.phase == (match decision_of(&d) {
                Decision::Continue => Phase::Open,
                Decision::InvokeAction(a) => Phase::Invoking(a),
                _ => Phase::Ended,
            }),
            final(self)@.signals == (match decision_of(&d) {
                Decision::Close(r) => old(self)@.signals.push(ServerSignal::NotificationClosed(r)),
                _ => old(self)@.signals,
            }),
            session_ok(final(self)@),
    {
        let d = decide(event);
        match &d {
            ServerDecision::Continue => {},
            ServerDecision::InvokeAction(a) => {
                self.pending = Some(a.clone());
            },
            ServerDecision::Close(r) => {
                proof {
                    lemma_close_count_append(self.signals@, ServerSignal::NotificationClosed(*r));
                }
                self.ended = true;
                self.signals = Ghost(self.signals@.push(ServerSignal::NotificationClosed(*r)));
            },
            ServerDecision::Fail(_) => {
                self.ended = true;
            },
        }
        d
    }

    /// Finishes invoking an action once its `ActionInvoked` signal was sent
    /// (or failed to be): decides as [`decide_after_invoke`] does, records
    /// the sent signal, emits `NotificationClosed` when the notification
    /// closes, and is open again only for a persistent notification.
    pub fn after_invoke(&mut self, sent: Result<(), String>) -> (d: ServerDecision)
        requires
            old(self)@.phase is Invoking,
            session_ok(old(self)@),
        ensures
            decision_of(&d) == decision_after_invoke(old(self)@.persistent, sent),
            final(self)@.persistent == old(self)@.persistent,
            final(self)@.phase == (match decision_of(&d) {
                Decision::Continue => Phase::Open,
                _ => Phase::Ended,
            }),
            final(self)@.signals == (match decision_of(&d) {
                Decision::Fail(_) => old(self)@.signals,
                Decision::Close(r) => old(self)@.signals.push(
                    ServerSignal::ActionInvoked(old(self)@.phase->Invoking_0),
                ).push(ServerSignal::NotificationClosed(r)),
                _ => old(self)@.signals.push(ServerSignal::ActionInvoked(old(self)@.phase->Invoking_0)),
            }),
            session_ok(final(self)@),
    {
        let ghost action = old(self)@.phase->Invoking_0;
        let was_ok = sent.is_ok();
        let d = decide_after_invoke(self.persistent, sent);
        self.pending = None;
        if was_ok {
            proof {
                lemma_close_count_append(self.signals@, ServerSignal::ActionInvoked(action));
            }
            self.signals = Ghost(self.signals@.push(ServerSignal::ActionInvoked(action)));
        }
        match &d {
            ServerDecision::Close(r) => {
                proof {
                    lemma_close_count_append(self.signals@, ServerSignal::NotificationClosed(*r));
                }
                self.ended = true;
                self.signals = Ghost(self.signals@.push(ServerSignal::NotificationClosed(*r)));
            },
            ServerDecision::Fail(_) => {
                self.ended = true;
            },
            _ => {},
        }
        d
    }

    /// Whether the session has ended.
    pub fn is_ended(&self) -> (r: bool)
        ensures
            r == (self@.phase is Ended),
    {
        self.ended
    }
}

/// How a notification ended, as the server reports it.
#[derive(Debug, Clone, Copy, PartialEq, Eq, Structural)]
pub enum HandledNotification {
    /// It was closed with this reason.
    Closed(CloseReason),
    /// It was handled.
    Handled,
}

/// The state of the notification server: the count of notifications it has
/// received, which is also the id of the latest one.
#[derive(Debug)]
pub struct ServerState {
    /// Notifications received so far.
    pub count: u32,
    /// The server's configuration.
    pub config: NotificationServerConfig,
}

impl ServerState {
    /// A server that has received nothing yet, with the default configuration.
    pub fn with_default_config() -> (s: ServerState)
        ensures
            s.count == 0,
            s.config.default_timeout == 3000,
    {
        ServerState { count: 0, config: NotificationServerConfig::default_config() }
    }

    /// Counts a received notification and returns its id.
    pub fn next_id(&mut self) -> (id: u32)
        requires
            old(self).count < u32::MAX,
        ensures
            final(self).count == old(self).count + 1,
            id == final(self).count,
            final(self).config == old(self).config,
    {
        self.count = self.count + 1;
        self.count
    }

    /// Milliseconds until a notification with this requested timeout closes.
    pub fn time_to_close(&self, timeout: i32) -> (r: Option<u64>)
        ensures
            r == close_timeout_of(timeout, self.config.default_timeout),
    {
        close_timeout(timeout, self.config.default_timeout)
    }
}

/// Product name, vendor, version and specification version that the server
/// reports about itself, given the crate's version.
pub fn server_information(version: &str) -> (r: crate::ServerInformation)
    ensures
        r.name@ == "name"@,
        r.vendor@ == "hoodie"@,
        r.version@ == version@,
        r.spec_version@ == "1.1"@,
{
    crate::ServerInformation {
        name: owned("name"),
        vendor: owned("hoodie"),
        version: owned(version),
        spec_version: owned("1.1"),
    }
}

} // verus!
