//! # The dashboard
//!
//! Everything that the user interface keeps for itself: the windows on the screen, the
//! messages, and what stands in the fields. The orders and prices are those of the shared
//! state ([`crate::state::AppState`]).

use vstd::prelude::*;
use crate::events::{AppEvent, EventView};
use crate::reducer;
use crate::state::{AppState, NotificationKind, StateView};
use crate::ui::consoles::{LimitForm, MarketForm};
use crate::ui::intervals::{submit_interval, IntervalInputs, PollConfig, Submission};
use crate::ui::toasts;
use crate::ui::toasts::{ToastNotification, ToastView};
use crate::ui::windows;
use crate::ui::windows::{WindowGroup, WindowView};
use crate::messages::Queue;
use crate::decimal;

verus! {

/// How long an idle screen stays as it is, in milliseconds; the clock has to go on.
pub const IDLE_REPAINT_MS: u64 = 250;

pub struct PolymarketDashboardApp {
    pub is_authenticated: bool,
    pub windows: Vec<WindowGroup>,
    pub notifications: Vec<ToastNotification>,
    pub auto_refresh_active: bool,
    pub interval_inputs: IntervalInputs,
    pub limit: LimitForm,
    pub market: MarketForm,
    pub last_seen_version: u64,
}

/// The windows on the screen after an event.
pub open spec fn windows_after(list: Seq<WindowView>, event: EventView) -> Seq<WindowView> {
    match event {
        EventView::WindowOpened { window_ts, .. } => windows::ensured(list, window_ts),
        EventView::WindowClosed { window_ts } => windows::without(list, window_ts),
        _ => list,
    }
}

/// The messages after an event.
pub open spec fn toasts_after(list: Seq<ToastView>, event: EventView, now_ms: u64) -> Seq<ToastView> {
    match event {
        EventView::Notify { message, kind } => list.push(toasts::toast_spec(message, kind, now_ms)),
        _ => list,
    }
}

/// What events say.
pub open spec fn event_views(events: Seq<AppEvent>) -> Seq<EventView> {
    events.map(|i: int, e: AppEvent| e@)
}

/// The shared state after events, one after the other.
pub open spec fn state_after_all(s: StateView, events: Seq<EventView>) -> StateView
    decreases events.len(),
{
    if events.len() == 0 {
        s
    } else {
        reducer::step(state_after_all(s, events.drop_last()), events.last())
    }
}

/// The windows on the screen after events, one after the other.
pub open spec fn windows_after_all(list: Seq<WindowView>, events: Seq<EventView>) -> Seq<WindowView>
    decreases events.len(),
{
    if events.len() == 0 {
        list
    } else {
        windows_after(windows_after_all(list, events.drop_last()), events.last())
    }
}

/// The messages after events, one after the other.
pub open spec fn toasts_after_all(
    list: Seq<ToastView>,
    events: Seq<EventView>,
    now_ms: u64,
) -> Seq<ToastView>
    decreases events.len(),
{
    if events.len() == 0 {
        list
    } else {
        toasts_after(toasts_after_all(list, events.drop_last(), now_ms), events.last(), now_ms)
    }
}

/// Whether any of the events calls for a new painting.
pub open spec fn any_dirties(s: StateView, events: Seq<EventView>) -> bool
    decreases events.len(),
{
    events.len() > 0 && (any_dirties(s, events.drop_last()) || reducer::dirties(
        state_after_all(s, events.drop_last()),
        events.last(),
    ))
}

/// Whether every event can be applied to what the ones before it leave.
pub open spec fn all_applicable(s: StateView, events: Seq<EventView>) -> bool
    decreases events.len(),
{
    events.len() == 0 || (all_applicable(s, events.drop_last()) && reducer::applicable(
        state_after_all(s, events.drop_last()),
        events.last(),
    ))
}

/// Whether the first `n` events can be applied, and the next one, where there is one, cannot.
pub open spec fn reaches(s: StateView, events: Seq<EventView>, n: int) -> bool {
    &&& 0 <= n <= events.len()
    &&& all_applicable(s, events.take(n))
    &&& n < events.len() ==> !reducer::applicable(state_after_all(s, events.take(n)), events[n])
}

/// Events that can all be applied can be so up to any of them.
proof fn lemma_applicable_prefix(s: StateView, events: Seq<EventView>, n: int)
    requires
        all_applicable(s, events),
        0 <= n <= events.len(),
    ensures
        all_applicable(s, events.take(n)),
        n < events.len() ==> reducer::applicable(state_after_all(s, events.take(n)), events[n]),
    decreases events.len(),
{
    if n == events.len() {
        assert(events.take(n) =~= events);
    } else {
        let front = events.drop_last();
        lemma_applicable_prefix(s, front, n);
        assert(front.take(n) =~= events.take(n));
        if n == events.len() - 1 {
            assert(events.take(n) =~= front);
        }
    }
}

impl PolymarketDashboardApp {
    /// The windows on the screen.
    pub open spec fn shown(self) -> Seq<WindowView> {
        windows::window_views(self.windows@)
    }

    /// The messages on the screen.
    pub open spec fn toasts(self) -> Seq<ToastView> {
        toasts::toast_views(self.notifications@)
    }

    /// No window is on the screen twice.
    pub open spec fn wf(self) -> bool {
        windows::distinct(self.shown())
    }

    /// Whether two dashboards are the same but for windows and messages.
    pub open spec fn same_otherwise(self, other: PolymarketDashboardApp) -> bool {
        &&& self.is_authenticated == other.is_authenticated
        &&& self.auto_refresh_active == other.auto_refresh_active
        &&& self.interval_inputs == other.interval_inputs
        &&& self.limit == other.limit
        &&& self.market == other.market
        &&& self.last_seen_version == other.last_seen_version
    }

    /// The dashboard at the start: no window, no message, nobody authenticated, and the
    /// consoles as they stand at first.
    pub fn new(poll_config: &PollConfig) -> (r: Self)
        ensures
            r.wf(),
            r.shown() == Seq::<WindowView>::empty(),
            r.toasts() == Seq::<ToastView>::empty(),
            !r.is_authenticated,
            r.auto_refresh_active,
            r.last_seen_version == 0,
            r.limit.is_initial(),
            r.market.is_initial(),
            forall|q: Queue| #[trigger]
                r.interval_inputs.field(q) == decimal::digits(poll_config.get_spec(q) as nat),
    {
        let r = PolymarketDashboardApp {
            is_authenticated: false,
            windows: Vec::new(),
            notifications: Vec::new(),
            auto_refresh_active: true,
            interval_inputs: IntervalInputs::of_config(poll_config),
            limit: LimitForm::new(),
            market: MarketForm::new(),
            last_seen_version: 0,
        };
        assert(r.shown() =~= Seq::<WindowView>::empty());
        assert(r.toasts() =~= Seq::<ToastView>::empty());
        r
    }

    /// Shows a message.
    pub fn push_toast(&mut self, msg: String, kind: NotificationKind, now_ms: u64)
        requires
            toasts::showable(now_ms),
        ensures
            final(self).toasts() == old(self).toasts().push(
                toasts::toast_spec(msg@, kind, now_ms),
            ),
            final(self).windows == old(self).windows,
            final(self).same_otherwise(*old(self)),
    {
        let ghost before = self.toasts();
        let t = toasts::toast(msg, kind, now_ms);
        let ghost view = t@;
        self.notifications.push(t);
        assert(self.toasts() =~= before.push(view));
    }

    /// Sees to it that there is a window of that time. The result says whether it is new.
    pub fn ensure_window(&mut self, ts: u64) -> (r: bool)
        requires
            old(self).wf(),
        ensures
            final(self).wf(),
            r == !windows::has_window(old(self).shown(), ts),
            final(self).shown() == windows::ensured(old(self).shown(), ts),
            final(self).notifications == old(self).notifications,
            final(self).same_otherwise(*old(self)),
    {
        proof {
            windows::law_opened_window_is_shown(self.shown(), ts);
        }
        windows::ensure_window(&mut self.windows, ts)
    }

    /// Lists the orders of each window anew.
    pub fn sync_window_order_ids(&mut self, state: &AppState)
        requires
            old(self).wf(),
        ensures
            final(self).wf(),
            windows::synced(final(self).shown(), old(self).shown(), state@.orders),
            final(self).notifications == old(self).notifications,
            final(self).same_otherwise(*old(self)),
    {
        windows::sync_window_order_ids(&mut self.windows, state);
        proof {
            windows::lemma_synced_distinct(
                self.shown(),
                old(self).shown(),
                state@.orders,
            );
        }
    }

    /// Takes in an event: it changes the shared state, and the windows and the messages with
    /// it. The result says whether the screen has to be painted anew. Where the event cannot
    /// be applied there is none, and nothing changes.
    pub fn receive(&mut self, state: &mut AppState, event: &AppEvent, now_ms: u64) -> (r: Option<bool>)
        requires
            old(self).wf(),
            toasts::showable(now_ms),
        ensures
            final(self).wf(),
            r is Some <==> reducer::applicable(old(state)@, event@),
            r is Some ==> {
                &&& r->0 == reducer::dirties(old(state)@, event@)
                &&& final(state)@ == reducer::step(old(state)@, event@)
                &&& final(self).shown() == windows_after(old(self).shown(), event@)
                &&& final(self).toasts() == toasts_after(old(self).toasts(), event@, now_ms)
                &&& final(self).same_otherwise(*old(self))
            },
            r is None ==> final(state)@ == old(state)@ && *final(self) == *old(self),
    {
        let dirty = match reducer::try_apply(state, event) {
            Some(d) => d,
            None => return None,
        };
        match event {
            AppEvent::WindowOpened { window_ts, .. } => {
                let _ = self.ensure_window(*window_ts);
            },
            AppEvent::WindowClosed { window_ts } => {
                let ghost before = self.shown();
                let mut list: Vec<WindowGroup> = Vec::new();
                std::mem::swap(&mut list, &mut self.windows);
                self.windows = windows::drop_window(list, *window_ts);
                proof {
                    windows::lemma_without_distinct(before, *window_ts);
                }
            },
            AppEvent::Notify { message, kind } => {
                self.push_toast(message.clone(), *kind, now_ms);
            },
            _ => {},
        }
        Some(dirty)
    }

    /// Takes in all the events that wait, in order. The one answer says whether the screen has to
    /// be painted anew: whether any of them changed something. Where an event cannot be applied
    /// there is none, and that event and those behind it are not taken in.
    pub fn receive_all(&mut self, state: &mut AppState, events: &Vec<AppEvent>, now_ms: u64) -> (r:
        Option<bool>)
        requires
            old(self).wf(),
            toasts::showable(now_ms),
        ensures
            final(self).wf(),
            final(self).same_otherwise(*old(self)),
            r is Some <==> all_applicable(old(state)@, event_views(events@)),
            r is Some ==> {
                &&& r->0 == any_dirties(old(state)@, event_views(events@))
                &&& final(state)@ == state_after_all(old(state)@, event_views(events@))
                &&& final(self).shown() == windows_after_all(
                    old(self).shown(),
                    event_views(events@),
                )
                &&& final(self).toasts() == toasts_after_all(
                    old(self).toasts(),
                    event_views(events@),
                    now_ms,
                )
            },
            r is None ==> exists|n: int| #[trigger]
                reaches(old(state)@, event_views(events@), n) && n < events@.len()
                    && final(state)@ == state_after_all(
                    old(state)@,
                    event_views(events@).take(n),
                ) && final(self).shown() == windows_after_all(
                    old(self).shown(),
                    event_views(events@).take(n),
                ) && final(self).toasts() == toasts_after_all(
                    old(self).toasts(),
                    event_views(events@).take(n),
                    now_ms,
                ),
    {
        let ghost s = state@;
        let ghost all = event_views(events@);
        let mut dirty = false;
        let mut i: usize = 0;
        assert(all.take(0) =~= Seq::<EventView>::empty());
        while i < events.len()
            invariant
                i <= events.len(),
                all == event_views(events@),
                s == old(state)@,
                toasts::showable(now_ms),
                self.wf(),
                self.same_otherwise(*old(self)),
                all_applicable(s, all.take(i as int)),
                dirty == any_dirties(s, all.take(i as int)),
                state@ == state_after_all(s, all.take(i as int)),
                self.shown() == windows_after_all(old(self).shown(), all.take(i as int)),
                self.toasts() == toasts_after_all(old(self).toasts(), all.take(i as int), now_ms),
            decreases events.len() - i,
        {
            proof {
                assert(all.take(i + 1).drop_last() =~= all.take(i as int));
                assert(all.take(i + 1).last() == events@[i as int]@);
            }
            match self.receive(state, &events[i], now_ms) {
                Some(d) => {
                    dirty = dirty || d;
                },
                None => {
                    proof {
                        if all_applicable(s, all) {
                            lemma_applicable_prefix(s, all, i as int);
                        }
                        assert(reaches(s, all, i as int));
                    }
                    return None;
                },
            }
            i = i + 1;
        }
        assert(all.take(i as int) =~= all);
        Some(dirty)
    }

    /// Takes the messages whose time is over off the screen.
    pub fn expire_toasts(&mut self, now_ms: u64)
        ensures
            final(self).toasts() == toasts::unexpired(old(self).toasts(), now_ms),
            final(self).windows == old(self).windows,
            final(self).same_otherwise(*old(self)),
    {
        let mut list: Vec<ToastNotification> = Vec::new();
        std::mem::swap(&mut list, &mut self.notifications);
        self.notifications = toasts::expire(list, now_ms);
    }

    /// The user confirms the field of a polling loop. A message says how it went; the command
    /// goes to the worker.
    pub fn confirm_interval(&mut self, label: &str, queue: Queue, now_ms: u64) -> (r: Submission)
        requires
            toasts::showable(now_ms),
        ensures
            crate::ui::intervals::is_submission(
                r,
                label@,
                old(self).interval_inputs.field(queue),
                queue,
            ),
            final(self).toasts() == old(self).toasts().push(
                toasts::toast_spec(r.message@, r.kind, now_ms),
            ),
            final(self).windows == old(self).windows,
            final(self).same_otherwise(*old(self)),
    {
        let r = submit_interval(label, self.interval_inputs.get(queue), queue);
        self.push_toast(r.message.clone(), r.kind, now_ms);
        r
    }

    /// What to do at the end of a frame: paint again after a while, or nothing. A change of
    /// the shared state is noted; what sent it has already asked for a new frame.
    pub fn schedule_repaint(&mut self, version: u64) -> (r: Option<u64>)
        ensures
            r == (if old(self).auto_refresh_active && version == old(self).last_seen_version {
                Some(IDLE_REPAINT_MS)
            } else {
                None
            }),
            r is Some ==> r->0 == 250,
            final(self).last_seen_version == (if old(self).auto_refresh_active {
                version
            } else {
                old(self).last_seen_version
            }),
            final(self).windows == old(self).windows,
            final(self).notifications == old(self).notifications,
            final(self).auto_refresh_active == old(self).auto_refresh_active,
            final(self).is_authenticated == old(self).is_authenticated,
            final(self).interval_inputs == old(self).interval_inputs,
            final(self).limit == old(self).limit,
            final(self).market == old(self).market,
    {
        if !self.auto_refresh_active {
            return None;
        }
        if version != self.last_seen_version {
            self.last_seen_version = version;
            None
        } else {
            Some(IDLE_REPAINT_MS)
        }
    }
}

/// Only the opening and the closing of a window change which windows are shown, and only a message
/// is shown as one: an opened window is there, a closed one is gone, and a message comes behind the
/// others and stays for eight seconds where it is an error and for four where it is not.
pub proof fn law_screen_follows_the_events(
    list: Seq<WindowView>,
    messages: Seq<ToastView>,
    event: EventView,
    now_ms: u64,
)
    requires
        windows::distinct(list),
        toasts::showable(now_ms),
    ensures
        ({
            let shown = windows_after(list, event);
            let toasts = toasts_after(messages, event, now_ms);
            &&& event matches EventView::WindowOpened { window_ts, .. } ==> windows::has_window(
                shown,
                window_ts,
            )
            &&& event matches EventView::WindowClosed { window_ts } ==> !windows::has_window(
                shown,
                window_ts,
            )
            &&& !(event is WindowOpened) && !(event is WindowClosed) ==> shown == list
            &&& !(event is Notify) ==> toasts == messages
            &&& event matches EventView::Notify { message, kind } ==> toasts.len() == messages.len()
                + 1 && toasts.drop_last() == messages && toasts.last().message == message
                && toasts.last().kind == kind && toasts.last().expires_at_ms == now_ms + (if kind is
                Error {
                8_000int
            } else {
                4_000int
            })
        }),
{
    match event {
        EventView::WindowOpened { window_ts, .. } => {
            windows::law_opened_window_is_shown(list, window_ts);
        },
        EventView::WindowClosed { window_ts } => {
            windows::law_closed_window_is_gone(list, window_ts);
        },
        EventView::Notify { message, kind } => {
            assert(toasts_after(messages, event, now_ms).drop_last() =~= messages);
        },
        _ => {},
    }
}

/// Events are taken in one after the other: a list and what comes behind it are the same as the
/// list first and the rest then, for the state, the windows and the messages alike. The screen is
/// painted anew exactly where one of the two parts asks for it.
pub proof fn law_events_are_taken_in_order(
    s: StateView,
    list: Seq<WindowView>,
    messages: Seq<ToastView>,
    first: Seq<EventView>,
    then: Seq<EventView>,
    now_ms: u64,
)
    ensures
        state_after_all(s, first + then) == state_after_all(state_after_all(s, first), then),
        windows_after_all(list, first + then) == windows_after_all(
            windows_after_all(list, first),
            then,
        ),
        toasts_after_all(messages, first + then, now_ms) == toasts_after_all(
            toasts_after_all(messages, first, now_ms),
            then,
            now_ms,
        ),
        any_dirties(s, first + then) <==> any_dirties(s, first) || any_dirties(
            state_after_all(s, first),
            then,
        ),
        all_applicable(s, first + then) <==> all_applicable(s, first) && all_applicable(
            state_after_all(s, first),
            then,
        ),
    decreases then.len(),
{
    if then.len() == 0 {
        assert(first + then =~= first);
    } else {
        let rest = then.drop_last();
        law_events_are_taken_in_order(s, list, messages, first, rest, now_ms);
        assert((first + then).drop_last() =~= first + rest);
        assert((first + then).last() == then.last());
    }
}

/// One event by itself does what the reducer does with it, and the screen is painted anew exactly
/// where it changes the version of the state. Where no event asks for that, the state is as it was.
pub proof fn law_painting_follows_changes(s: StateView, events: Seq<EventView>, event: EventView)
    ensures
        state_after_all(s, seq![event]) == reducer::step(s, event),
        any_dirties(s, seq![event]) <==> reducer::step(s, event).version != s.version,
        !any_dirties(s, events) ==> state_after_all(s, events) == s,
    decreases events.len(),
{
    let one = seq![event];
    assert(one.drop_last() =~= Seq::empty());
    assert(one.last() == event);
    assert(state_after_all(s, one.drop_last()) == s);
    assert(!any_dirties(s, one.drop_last()));
    reducer::law_version_counts_changes(s, event);
    if events.len() > 0 {
        law_painting_follows_changes(s, events.drop_last(), event);
    }
}

/// Two dashboards that are the same but for windows and messages agree on everything else.
pub proof fn law_only_windows_and_messages_differ(
    a: PolymarketDashboardApp,
    b: PolymarketDashboardApp,
)
    ensures
        a.same_otherwise(b) <==> a == (PolymarketDashboardApp {
            windows: a.windows,
            notifications: a.notifications,
            ..b
        }),
{
}

/// Lists of events, windows and messages are read one by one.
pub proof fn law_lists_are_read_one_by_one(
    app: PolymarketDashboardApp,
    events: Seq<AppEvent>,
    i: int,
)
    ensures
        event_views(events) == crate::events::event_views(events),
        app.shown().len() == app.windows@.len(),
        0 <= i < app.windows@.len() ==> app.shown()[i] == app.windows@[i]@ && app.shown()[i].timestamp_5m
            == app.windows@[i].timestamp_5m && app.shown()[i].is_expanded
            == app.windows@[i].is_expanded && app.shown()[i].order_ids.len()
            == app.windows@[i].order_ids@.len(),
        app.toasts().len() == app.notifications@.len(),
        0 <= i < app.notifications@.len() ==> app.toasts()[i] == app.notifications@[i]@,
{
    assert(event_views(events) =~= crate::events::event_views(events));
}

/// Events are taken up to the first that cannot be applied, and all of them where there is none:
/// how far they are taken is within the list, every one before can be applied, and the next cannot.
pub proof fn law_events_are_taken_up_to_the_first_fault(s: StateView, events: Seq<EventView>, n: int)
    requires
        reaches(s, events, n),
    ensures
        0 <= n <= events.len(),
        all_applicable(s, events) <==> n == events.len(),
        forall|k: int|
            0 <= k < n ==> reducer::applicable(
                state_after_all(s, #[trigger] events.take(k)),
                events[k],
            ),
        n < events.len() ==> !reducer::applicable(state_after_all(s, events.take(n)), events[n]),
{
    if n == events.len() {
        assert(events.take(n) =~= events);
    } else if all_applicable(s, events) {
        lemma_applicable_prefix(s, events, n);
    }
    assert forall|k: int| 0 <= k < n implies reducer::applicable(
        state_after_all(s, #[trigger] events.take(k)),
        events[k],
    ) by {
        lemma_applicable_prefix(s, events.take(n), k);
        assert(events.take(n).take(k) =~= events.take(k));
    }
}

} // verus!
