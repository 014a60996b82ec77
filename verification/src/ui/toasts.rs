//! Messages that are shown for a few seconds.

use vstd::prelude::*;
use crate::state::NotificationKind;

verus! {

/// How long an error is shown, in milliseconds.
pub const ERROR_MS: u64 = 8_000;

/// How long any other message is shown, in milliseconds.
pub const MESSAGE_MS: u64 = 4_000;

/// A message on the screen.
#[derive(Debug)]
pub struct ToastNotification {
    pub message: String,
    pub kind: NotificationKind,
    pub expires_at_ms: u64,
}

/// The mathematical value of a [`ToastNotification`].
pub struct ToastView {
    pub message: Seq<char>,
    pub kind: NotificationKind,
    pub expires_at_ms: u64,
}

impl View for ToastNotification {
    type V = ToastView;

    open spec fn view(&self) -> ToastView {
        ToastView { message: self.message@, kind: self.kind, expires_at_ms: self.expires_at_ms }
    }
}

/// What the messages of a list say.
pub open spec fn toast_views(toasts: Seq<ToastNotification>) -> Seq<ToastView> {
    toasts.map_values(|t: ToastNotification| t@)
}

/// How long a message of a kind is shown, in milliseconds.
pub open spec fn shown_for(kind: NotificationKind) -> u64 {
    if kind is Error { ERROR_MS } else { MESSAGE_MS }
}

/// Whether the end of a message that begins now is a time.
pub open spec fn showable(now_ms: u64) -> bool {
    now_ms <= u64::MAX - ERROR_MS
}

/// A message that begins now.
pub open spec fn toast_spec(message: Seq<char>, kind: NotificationKind, now_ms: u64) -> ToastView {
    ToastView { message, kind, expires_at_ms: (now_ms + shown_for(kind)) as u64 }
}

/// A message that begins now.
pub fn toast(message: String, kind: NotificationKind, now_ms: u64) -> (r: ToastNotification)
    requires
        showable(now_ms),
    ensures
        r@ == toast_spec(message@, kind, now_ms),
{
    let shown_ms: u64 = match kind {
        NotificationKind::Error => ERROR_MS,
        _ => MESSAGE_MS,
    };
    ToastNotification { message, kind, expires_at_ms: now_ms + shown_ms }
}

/// The messages that are still shown, in their order.
pub open spec fn unexpired(toasts: Seq<ToastView>, now_ms: u64) -> Seq<ToastView> {
    toasts.filter(|t: ToastView| now_ms < t.expires_at_ms)
}

/// Takes the messages whose time is over off the list.
pub fn expire(toasts: Vec<ToastNotification>, now_ms: u64) -> (r: Vec<ToastNotification>)
    ensures
        toast_views(r@) == unexpired(toast_views(toasts@), now_ms),
{
    let ghost all = toast_views(toasts@);
    let ghost keep = |t: ToastView| now_ms < t.expires_at_ms;
    let mut rest = toasts;
    let mut out: Vec<ToastNotification> = Vec::new();
    let ghost n = rest@.len();
    assert(all.skip(0) =~= all);
    assert(all.take(0) =~= Seq::empty());
    reveal(Seq::filter);
    while rest.len() > 0
        invariant
            n == all.len(),
            rest@.len() <= n,
            keep == (|t: ToastView| now_ms < t.expires_at_ms),
            toast_views(rest@) == all.skip(n - rest@.len()),
            toast_views(out@) == all.take(n - rest@.len()).filter(keep),
        decreases rest@.len(),
    {
        let ghost k = n - rest@.len();
        let ghost before = toast_views(out@);
        let ghost was = rest@;
        let t = rest.remove(0);
        proof {
            reveal(Seq::filter);
            assert(toast_views(was)[0] == all[k]);
            assert(t@ == all[k]);
            assert(all.take(k + 1).drop_last() =~= all.take(k));
            assert(all.take(k + 1).last() == all[k]);
            assert(toast_views(rest@) =~= toast_views(was).skip(1));
            assert(all.skip(k).skip(1) =~= all.skip(k + 1));
        }
        if now_ms < t.expires_at_ms {
            out.push(t);
            assert(toast_views(out@) =~= before.push(all[k]));
        }
    }
    assert(all.take(n as int) =~= all);
    out
}

/// A message is shown from its beginning, for exactly its time: errors for twice as long as
/// the rest.
pub proof fn law_toast_lives_its_time(message: Seq<char>, kind: NotificationKind, now_ms: u64, at_ms: u64)
    requires
        showable(now_ms),
    ensures
        unexpired(seq![toast_spec(message, kind, now_ms)], at_ms).len() == (if at_ms < now_ms
            + shown_for(kind) {
            1int
        } else {
            0
        }),
        shown_for(NotificationKind::Error) == 2 * shown_for(NotificationKind::Success),
{
    reveal(Seq::filter);
    let t = toast_spec(message, kind, now_ms);
    let s = seq![t];
    assert(s.drop_last() =~= Seq::empty());
    assert(s.last() == t);
    let keep = |t: ToastView| at_ms < t.expires_at_ms;
    assert(Seq::<ToastView>::empty().filter(keep) =~= Seq::empty());
}

/// An error is shown for eight seconds and every other message for four, from the time it comes.
pub proof fn law_errors_are_shown_for_eight_seconds(
    message: Seq<char>,
    kind: NotificationKind,
    now_ms: u64,
)
    requires
        showable(now_ms),
    ensures
        ({
            let t = toast_spec(message, kind, now_ms);
            &&& t.message == message && t.kind == kind
            &&& kind is Error ==> t.expires_at_ms == now_ms + 8_000
            &&& !(kind is Error) ==> t.expires_at_ms == now_ms + 4_000
        }),
{
}

/// The messages that are still shown are exactly those whose time is not over.
pub proof fn law_messages_stay_until_their_time(toasts: Seq<ToastView>, now_ms: u64, t: ToastView)
    ensures
        unexpired(toasts, now_ms).contains(t) <==> toasts.contains(t) && now_ms < t.expires_at_ms,
{
    crate::listing::lemma_filter_members(toasts, |t: ToastView| now_ms < t.expires_at_ms);
}

/// A message can be shown exactly where the longest time that one is shown ends within the clock.
pub proof fn law_every_message_ends(now_ms: u64, kind: NotificationKind)
    ensures
        showable(now_ms) <==> now_ms + 8_000 <= u64::MAX,
        shown_for(kind) == (if kind is Error { 8_000int } else { 4_000int }),
{
}

} // verus!
