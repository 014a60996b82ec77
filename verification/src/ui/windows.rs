//! The windows on the screen, each with the orders that belong to it.

use vstd::prelude::*;
use crate::state::{AppState, OrderView};
use crate::text;

verus! {

/// A window on the screen.
#[derive(Debug)]
pub struct WindowGroup {
    pub timestamp_5m: u64,
    pub is_expanded: bool,
    pub order_ids: Vec<String>,
}

/// The mathematical value of a [`WindowGroup`].
#[verifier::ext_equal]
pub struct WindowView {
    pub timestamp_5m: u64,
    pub is_expanded: bool,
    pub order_ids: Seq<Seq<char>>,
}

impl View for WindowGroup {
    type V = WindowView;

    open spec fn view(&self) -> WindowView {
        WindowView {
            timestamp_5m: self.timestamp_5m,
            is_expanded: self.is_expanded,
            order_ids: text::texts(self.order_ids@),
        }
    }
}

/// The windows of a list.
pub open spec fn window_views(windows: Seq<WindowGroup>) -> Seq<WindowView> {
    windows.map_values(|w: WindowGroup| w@)
}

/// Whether no two windows are of the same time.
pub open spec fn distinct(windows: Seq<WindowView>) -> bool {
    forall|i: int, j: int|
        0 <= i < j < windows.len() ==> (#[trigger] windows[i]).timestamp_5m != (
        #[trigger] windows[j]).timestamp_5m
}

/// Whether there is a window of that time.
pub open spec fn has_window(windows: Seq<WindowView>, ts: u64) -> bool {
    exists|i: int| 0 <= i < windows.len() && (#[trigger] windows[i]).timestamp_5m == ts
}

/// Where the window of that time is: the first one, or the length where there is none.
pub open spec fn position(windows: Seq<WindowView>, ts: u64) -> int
    decreases windows.len(),
{
    if windows.len() == 0 {
        0
    } else if windows[0].timestamp_5m == ts {
        0
    } else {
        1 + position(windows.skip(1), ts)
    }
}

/// What the position of a window is.
pub proof fn lemma_position(windows: Seq<WindowView>, ts: u64)
    ensures
        0 <= position(windows, ts) <= windows.len(),
        position(windows, ts) < windows.len() ==> windows[position(windows, ts)].timestamp_5m == ts,
        forall|i: int|
            0 <= i < position(windows, ts) ==> (#[trigger] windows[i]).timestamp_5m != ts,
        has_window(windows, ts) <==> position(windows, ts) < windows.len(),
    decreases windows.len(),
{
    if windows.len() > 0 && windows[0].timestamp_5m != ts {
        lemma_position(windows.skip(1), ts);
        let p = position(windows.skip(1), ts);
        assert forall|i: int| 0 <= i < p + 1 implies (#[trigger] windows[i]).timestamp_5m != ts by {
            if i > 0 {
                assert(windows.skip(1)[i - 1] == windows[i]);
            }
        }
        if p < windows.skip(1).len() {
            assert(windows.skip(1)[p] == windows[p + 1]);
        }
    } else if windows.len() > 0 {
        assert(windows[0].timestamp_5m == ts);
    }
}

/// A position is the only one of its kind.
proof fn lemma_position_is(windows: Seq<WindowView>, ts: u64, p: int)
    requires
        0 <= p <= windows.len(),
        p < windows.len() ==> windows[p].timestamp_5m == ts,
        forall|i: int| 0 <= i < p ==> (#[trigger] windows[i]).timestamp_5m != ts,
    ensures
        position(windows, ts) == p,
{
    lemma_position(windows, ts);
    let q = position(windows, ts);
    if q < p {
        assert(windows[q].timestamp_5m != ts);
    }
}

/// The windows without their orders.
pub open spec fn cleared(windows: Seq<WindowView>) -> Seq<WindowView> {
    windows.map_values(|w: WindowView| WindowView { order_ids: Seq::empty(), ..w })
}

/// The windows with an order added to its window; a new window goes to the end.
pub open spec fn placed(windows: Seq<WindowView>, id: Seq<char>, ts: u64) -> Seq<WindowView> {
    let p = position(windows, ts);
    if p < windows.len() {
        windows.update(
            p,
            WindowView { order_ids: windows[p].order_ids.push(id), ..windows[p] },
        )
    } else {
        windows.push(WindowView { timestamp_5m: ts, is_expanded: true, order_ids: seq![id] })
    }
}

/// The windows with orders added one after the other.
pub open spec fn all_placed(
    windows: Seq<WindowView>,
    ids: Seq<Seq<char>>,
    orders: Map<Seq<char>, OrderView>,
) -> Seq<WindowView>
    decreases ids.len(),
{
    if ids.len() == 0 {
        windows
    } else {
        placed(
            all_placed(windows, ids.drop_last(), orders),
            orders[ids.last()].id,
            orders[ids.last()].window_ts,
        )
    }
}

/// Whether a list holds the key of each order once, in some order.
pub open spec fn lists_all(ids: Seq<Seq<char>>, orders: Map<Seq<char>, OrderView>) -> bool {
    ids.no_duplicates() && forall|id: Seq<char>| #[trigger]
        ids.contains(id) <==> orders.contains_key(id)
}

/// Whether the windows `after` are the windows `before` with their orders listed anew.
pub open spec fn synced(
    after: Seq<WindowView>,
    before: Seq<WindowView>,
    orders: Map<Seq<char>, OrderView>,
) -> bool {
    exists|ids: Seq<Seq<char>>| #[trigger]
        lists_all(ids, orders) && after == all_placed(cleared(before), ids, orders)
}

/// The windows with one of that time in front, where there is none yet.
pub open spec fn ensured(windows: Seq<WindowView>, ts: u64) -> Seq<WindowView> {
    if has_window(windows, ts) {
        windows
    } else {
        seq![WindowView { timestamp_5m: ts, is_expanded: true, order_ids: Seq::empty() }] + windows
    }
}

/// The windows without those of that time.
pub open spec fn without(windows: Seq<WindowView>, ts: u64) -> Seq<WindowView> {
    windows.filter(|w: WindowView| w.timestamp_5m != ts)
}

/// Where the window of that time is.
fn find_window(windows: &Vec<WindowGroup>, ts: u64) -> (r: usize)
    ensures
        r == position(window_views(windows@), ts),
        r <= windows@.len(),
{
    let ghost views = window_views(windows@);
    let mut i: usize = 0;
    while i < windows.len()
        invariant
            i <= windows@.len(),
            views == window_views(windows@),
            forall|k: int| 0 <= k < i ==> (#[trigger] views[k]).timestamp_5m != ts,
        decreases windows@.len() - i,
    {
        assert(views[i as int] == windows@[i as int]@);
        if windows[i].timestamp_5m == ts {
            proof {
                lemma_position_is(views, ts, i as int);
            }
            return i;
        }
        i = i + 1;
    }
    proof {
        lemma_position_is(views, ts, i as int);
    }
    i
}

/// Sees to it that there is a window of that time. The result says whether it is new.
pub fn ensure_window(windows: &mut Vec<WindowGroup>, ts: u64) -> (r: bool)
    ensures
        r == !has_window(window_views(old(windows)@), ts),
        window_views(final(windows)@) == ensured(window_views(old(windows)@), ts),
{
    let ghost before = window_views(windows@);
    proof {
        lemma_position(before, ts);
    }
    if find_window(windows, ts) < windows.len() {
        return false;
    }
    windows.insert(0, WindowGroup { timestamp_5m: ts, is_expanded: true, order_ids: Vec::new() });
    proof {
        let w = windows@[0];
        assert(w@.order_ids =~= Seq::<Seq<char>>::empty());
        assert(window_views(windows@) =~= ensured(before, ts));
    }
    true
}

/// Takes the window of that time off the screen.
pub fn drop_window(windows: Vec<WindowGroup>, ts: u64) -> (r: Vec<WindowGroup>)
    ensures
        window_views(r@) == without(window_views(windows@), ts),
{
    let ghost all = window_views(windows@);
    let ghost keep = |w: WindowView| w.timestamp_5m != ts;
    let ghost n = windows@.len();
    let mut rest = windows;
    let mut out: Vec<WindowGroup> = Vec::new();
    assert(all.skip(0) =~= all);
    assert(all.take(0) =~= Seq::empty());
    reveal(Seq::filter);
    while rest.len() > 0
        invariant
            n == all.len(),
            rest@.len() <= n,
            keep == (|w: WindowView| w.timestamp_5m != ts),
            window_views(rest@) == all.skip(n - rest@.len()),
            window_views(out@) == all.take(n - rest@.len()).filter(keep),
        decreases rest@.len(),
    {
        let ghost k = n - rest@.len();
        let ghost before = window_views(out@);
        let ghost was = rest@;
        let w = rest.remove(0);
        proof {
            reveal(Seq::filter);
            assert(window_views(was)[0] == all[k]);
            assert(w@ == all[k]);
            assert(all.take(k + 1).drop_last() =~= all.take(k));
            assert(all.take(k + 1).last() == all[k]);
            assert(window_views(rest@) =~= window_views(was).skip(1));
            assert(all.skip(k).skip(1) =~= all.skip(k + 1));
        }
        if w.timestamp_5m != ts {
            out.push(w);
            assert(window_views(out@) =~= before.push(all[k]));
        }
    }
    assert(all.take(n as int) =~= all);
    out
}

/// Removes the orders from all windows.
fn clear_orders(windows: &mut Vec<WindowGroup>)
    ensures
        window_views(final(windows)@) == cleared(window_views(old(windows)@)),
{
    let ghost before = windows@;
    let mut i: usize = 0;
    while i < windows.len()
        invariant
            i <= windows@.len(),
            windows@.len() == before.len(),
            forall|k: int|
                0 <= k < i ==> (#[trigger] windows@[k])@ == (WindowView {
                    order_ids: Seq::empty(),
                    ..before[k]@
                }),
            forall|k: int| i <= k < before.len() ==> #[trigger] windows@[k] == before[k],
        decreases windows@.len() - i,
    {
        let w = WindowGroup {
            timestamp_5m: windows[i].timestamp_5m,
            is_expanded: windows[i].is_expanded,
            order_ids: Vec::new(),
        };
        assert(w@.order_ids =~= Seq::<Seq<char>>::empty());
        windows.set(i, w);
        i = i + 1;
    }
    assert(window_views(windows@) =~= cleared(window_views(before)));
}

/// Adds an order to its window.
fn place(windows: &mut Vec<WindowGroup>, id: String, ts: u64)
    ensures
        window_views(final(windows)@) == placed(window_views(old(windows)@), id@, ts),
{
    let ghost before = window_views(windows@);
    let ghost was = windows@;
    let p: usize = find_window(windows, ts);
    if p < windows.len() {
        let mut w = windows.remove(p);
        let ghost ids = text::texts(w.order_ids@);
        assert(before[p as int] == w@);
        w.order_ids.push(id);
        assert(text::texts(w.order_ids@) =~= ids.push(id@));
        let ghost end = w;
        windows.insert(p, w);
        assert(windows@ =~= was.update(p as int, end));
        assert(window_views(windows@) =~= placed(before, id@, ts));
    } else {
        let w = WindowGroup { timestamp_5m: ts, is_expanded: true, order_ids: vec![id] };
        assert(text::texts(w.order_ids@) =~= seq![id@]);
        windows.push(w);
        assert(window_views(windows@) =~= placed(before, id@, ts));
    }
}

/// Lists the orders of each window anew. An order whose window is not on the screen brings it
/// there, behind the others.
pub fn sync_window_order_ids(windows: &mut Vec<WindowGroup>, state: &AppState)
    ensures
        synced(window_views(final(windows)@), window_views(old(windows)@), state@.orders),
{
    let ghost before = window_views(windows@);
    clear_orders(windows);
    let ids = state.order_ids();
    let ghost keys = text::texts(ids@);
    let mut i: usize = 0;
    assert(keys.take(0) =~= Seq::empty());
    while i < ids.len()
        invariant
            i <= ids.len(),
            keys == text::texts(ids@),
            lists_all(keys, state@.orders),
            window_views(windows@) == all_placed(
                cleared(before),
                keys.take(i as int),
                state@.orders,
            ),
        decreases ids.len() - i,
    {
        proof {
            assert(keys[i as int] == ids@[i as int]@);
            assert(keys.contains(keys[i as int]));
            assert(keys.take(i + 1).drop_last() =~= keys.take(i as int));
            assert(keys.take(i + 1).last() == keys[i as int]);
        }
        if let Some(order) = state.order(ids[i].as_str()) {
            place(windows, order.id, order.window_ts);
        }
        i = i + 1;
    }
    assert(keys.take(i as int) =~= keys);
}

/// What one more order does to the windows: they stay where they are, their times stay
/// distinct, and the order is in the list of its window and of no other.
proof fn lemma_placed(windows: Seq<WindowView>, id: Seq<char>, ts: u64)
    requires
        distinct(windows),
    ensures
        distinct(placed(windows, id, ts)),
        windows.len() <= placed(windows, id, ts).len(),
        forall|i: int|
            0 <= i < windows.len() ==> (#[trigger] placed(windows, id, ts)[i]).timestamp_5m
                == windows[i].timestamp_5m && placed(windows, id, ts)[i].is_expanded
                == windows[i].is_expanded,
        has_window(placed(windows, id, ts), ts),
        forall|i: int, other: Seq<char>|
            0 <= i < placed(windows, id, ts).len() ==> (#[trigger] placed(windows, id, ts)[
                i
            ].order_ids.contains(other) <==> (i < windows.len()
                && windows[i].order_ids.contains(other)) || (other == id && placed(
                windows,
                id,
                ts,
            )[i].timestamp_5m == ts)),
{
    lemma_position(windows, ts);
    let p = position(windows, ts);
    let after = placed(windows, id, ts);
    if p < windows.len() {
        assert(after[p].timestamp_5m == ts);
        assert forall|i: int, j: int| 0 <= i < j < after.len() implies (
        #[trigger] after[i]).timestamp_5m != (#[trigger] after[j]).timestamp_5m by {
            assert(windows[i].timestamp_5m != windows[j].timestamp_5m);
        }
        assert forall|i: int, other: Seq<char>| 0 <= i < after.len() implies (#[trigger] after[
            i
        ].order_ids.contains(other) <==> (i < windows.len() && windows[i].order_ids.contains(other))
            || (other == id && after[i].timestamp_5m == ts)) by {
            if i == p {
                let old_ids = windows[p].order_ids;
                let new_ids = after[p].order_ids;
                assert(new_ids == old_ids.push(id));
                if old_ids.contains(other) {
                    let k = choose|k: int| 0 <= k < old_ids.len() && old_ids[k] == other;
                    assert(new_ids[k] == other);
                }
                if other == id {
                    assert(new_ids[old_ids.len() as int] == other);
                }
                if new_ids.contains(other) && other != id {
                    let k = choose|k: int| 0 <= k < new_ids.len() && new_ids[k] == other;
                    assert(old_ids[k] == other);
                }
            } else {
                assert(windows[i].timestamp_5m != ts) by {
                    if i < p {
                    } else {
                        assert(windows[p].timestamp_5m != windows[i].timestamp_5m);
                    }
                }
            }
        }
    } else {
        let n = windows.len() as int;
        assert(after[n].timestamp_5m == ts);
        assert forall|i: int, j: int| 0 <= i < j < after.len() implies (
        #[trigger] after[i]).timestamp_5m != (#[trigger] after[j]).timestamp_5m by {
            if j < n {
                assert(windows[i].timestamp_5m != windows[j].timestamp_5m);
            } else {
                assert(windows[i].timestamp_5m != ts);
            }
        }
        assert forall|i: int, other: Seq<char>| 0 <= i < after.len() implies (#[trigger] after[
            i
        ].order_ids.contains(other) <==> (i < windows.len() && windows[i].order_ids.contains(other))
            || (other == id && after[i].timestamp_5m == ts)) by {
            if i == n {
                assert(after[n].order_ids == seq![id]);
                assert(seq![id][0] == id);
            } else {
                assert(windows[i].timestamp_5m != ts);
            }
        }
    }
}

/// Whether every order in a list stands under its own identifier.
spec fn own_ids(ids: Seq<Seq<char>>, orders: Map<Seq<char>, OrderView>) -> bool {
    forall|k: int| 0 <= k < ids.len() ==> orders[#[trigger] ids[k]].id == ids[k]
}

/// What adding orders does, one after the other.
proof fn lemma_all_placed(
    windows: Seq<WindowView>,
    ids: Seq<Seq<char>>,
    orders: Map<Seq<char>, OrderView>,
)
    requires
        distinct(windows),
        forall|i: int| 0 <= i < windows.len() ==> (#[trigger] windows[i]).order_ids.len() == 0,
    ensures
        distinct(all_placed(windows, ids, orders)),
        windows.len() <= all_placed(windows, ids, orders).len(),
        forall|i: int|
            0 <= i < windows.len() ==> (#[trigger] all_placed(
                windows,
                ids,
                orders,
            )[i]).timestamp_5m == windows[i].timestamp_5m && all_placed(
                windows,
                ids,
                orders,
            )[i].is_expanded == windows[i].is_expanded,
        own_ids(ids, orders) ==> forall|i: int, id: Seq<char>|
            0 <= i < all_placed(windows, ids, orders).len() ==> (#[trigger] all_placed(
                windows,
                ids,
                orders,
            )[i].order_ids.contains(id) <==> ids.contains(id) && orders[id].window_ts == all_placed(
                windows,
                ids,
                orders,
            )[i].timestamp_5m),
        forall|id: Seq<char>| #[trigger]
            ids.contains(id) ==> has_window(
                all_placed(windows, ids, orders),
                orders[id].window_ts,
            ),
    decreases ids.len(),
{
    if ids.len() > 0 {
        let rest = ids.drop_last();
        let last = ids.last();
        let ts = orders[last].window_ts;
        lemma_all_placed(windows, rest, orders);
        let before = all_placed(windows, rest, orders);
        let after = all_placed(windows, ids, orders);
        lemma_placed(before, orders[last].id, ts);
        assert forall|id: Seq<char>| ids.contains(id) <==> (rest.contains(id) || id == last) by {
            if ids.contains(id) && id != last {
                let k = choose|k: int| 0 <= k < ids.len() && ids[k] == id;
                assert(rest[k] == id);
            }
            if rest.contains(id) {
                let k = choose|k: int| 0 <= k < rest.len() && rest[k] == id;
                assert(ids[k] == id);
            }
            if id == last {
                assert(ids[ids.len() - 1] == id);
            }
        }
        if own_ids(ids, orders) {
            assert(ids[ids.len() - 1] == last);
            assert forall|k: int| 0 <= k < rest.len() implies orders[#[trigger] rest[k]].id
                == rest[k] by {
                assert(ids[k] == rest[k]);
            }
        }
        assert forall|i: int, id: Seq<char>|
            own_ids(ids, orders) && 0 <= i < after.len() implies (#[trigger] after[
            i
        ].order_ids.contains(id) <==> ids.contains(id) && orders[id].window_ts
            == after[i].timestamp_5m) by {
            if i < before.len() {
                assert(before[i].order_ids.contains(id) <==> rest.contains(id)
                    && orders[id].window_ts == before[i].timestamp_5m);
                assert(after[i].timestamp_5m == before[i].timestamp_5m);
            } else {
                lemma_position(before, ts);
                assert(after[i].timestamp_5m == ts);
                if rest.contains(id) && orders[id].window_ts == ts {
                    assert(has_window(before, ts));
                }
            }
        }
        assert forall|id: Seq<char>| #[trigger] ids.contains(id) implies has_window(
            after,
            orders[id].window_ts,
        ) by {
            if rest.contains(id) {
                let w = orders[id].window_ts;
                assert(has_window(before, w));
                let k = choose|k: int| 0 <= k < before.len() && (#[trigger] before[k]).timestamp_5m == w;
                assert(after[k].timestamp_5m == w);
            }
        }
    } else {
        assert forall|i: int, id: Seq<char>| 0 <= i < windows.len() implies (#[trigger] windows[
            i
        ].order_ids.contains(id) <==> ids.contains(id) && orders[id].window_ts
            == windows[i].timestamp_5m) by {
            assert(windows[i].order_ids.len() == 0);
        }
    }
}

/// Listing the orders anew shows no window twice.
pub proof fn lemma_synced_distinct(
    after: Seq<WindowView>,
    before: Seq<WindowView>,
    orders: Map<Seq<char>, OrderView>,
)
    requires
        distinct(before),
        synced(after, before, orders),
    ensures
        distinct(after),
{
    let ids = choose|ids: Seq<Seq<char>>| #[trigger]
        lists_all(ids, orders) && after == all_placed(cleared(before), ids, orders);
    let start = cleared(before);
    assert forall|i: int, j: int| 0 <= i < j < start.len() implies (
    #[trigger] start[i]).timestamp_5m != (#[trigger] start[j]).timestamp_5m by {
        assert(before[i].timestamp_5m != before[j].timestamp_5m);
    }
    lemma_all_placed(start, ids, orders);
}

/// Listing the orders anew puts each order under its own window and under no other, whatever
/// order the orders are walked in; every order has a window; and the windows that were on the
/// screen stay where they are and as they are.
pub proof fn law_every_order_is_under_its_window(
    after: Seq<WindowView>,
    before: Seq<WindowView>,
    orders: Map<Seq<char>, OrderView>,
)
    requires
        distinct(before),
        synced(after, before, orders),
        forall|id: Seq<char>| #[trigger] orders.contains_key(id) ==> orders[id].id == id,
    ensures
        distinct(after),
        before.len() <= after.len(),
        forall|i: int|
            0 <= i < before.len() ==> (#[trigger] after[i]).timestamp_5m == before[i].timestamp_5m
                && after[i].is_expanded == before[i].is_expanded,
        forall|i: int, id: Seq<char>|
            0 <= i < after.len() ==> (#[trigger] after[i].order_ids.contains(id)
                <==> orders.contains_key(id) && orders[id].window_ts == after[i].timestamp_5m),
        forall|id: Seq<char>| #[trigger]
            orders.contains_key(id) ==> has_window(after, orders[id].window_ts),
{
    let ids = choose|ids: Seq<Seq<char>>| #[trigger]
        lists_all(ids, orders) && after == all_placed(cleared(before), ids, orders);
    let start = cleared(before);
    assert forall|i: int, j: int| 0 <= i < j < start.len() implies (
    #[trigger] start[i]).timestamp_5m != (#[trigger] start[j]).timestamp_5m by {
        assert(before[i].timestamp_5m != before[j].timestamp_5m);
    }
    lemma_all_placed(start, ids, orders);
    assert forall|k: int| 0 <= k < ids.len() implies orders[#[trigger] ids[k]].id == ids[k] by {
        assert(ids.contains(ids[k]));
    }
    assert forall|i: int| 0 <= i < before.len() implies (#[trigger] after[i]).timestamp_5m
        == before[i].timestamp_5m && after[i].is_expanded == before[i].is_expanded by {
        assert(start[i].timestamp_5m == before[i].timestamp_5m);
    }
    assert forall|i: int, id: Seq<char>| 0 <= i < after.len() implies (
    #[trigger] after[i].order_ids.contains(id) <==> orders.contains_key(id) && orders[id].window_ts
        == after[i].timestamp_5m) by {
        assert(ids.contains(id) <==> orders.contains_key(id));
    }
    assert forall|id: Seq<char>| #[trigger] orders.contains_key(id) implies has_window(
        after,
        orders[id].window_ts,
    ) by {
        assert(ids.contains(id));
    }
}

/// Opening a window keeps the times distinct, shows the window, and shows it in front where it
/// is new. Doing it twice is the same as doing it once.
pub proof fn law_opened_window_is_shown(windows: Seq<WindowView>, ts: u64)
    requires
        distinct(windows),
    ensures
        distinct(ensured(windows, ts)),
        has_window(ensured(windows, ts), ts),
        ensured(ensured(windows, ts), ts) == ensured(windows, ts),
        !has_window(windows, ts) ==> ensured(windows, ts)[0].timestamp_5m == ts,
{
    let after = ensured(windows, ts);
    if !has_window(windows, ts) {
        assert(after[0].timestamp_5m == ts);
        assert forall|i: int, j: int| 0 <= i < j < after.len() implies (
        #[trigger] after[i]).timestamp_5m != (#[trigger] after[j]).timestamp_5m by {
            assert(after[j] == windows[j - 1]);
            if i > 0 {
                assert(after[i] == windows[i - 1]);
            }
        }
    }
}

/// Taking a window off the screen leaves the times distinct.
pub proof fn lemma_without_distinct(windows: Seq<WindowView>, ts: u64)
    requires
        distinct(windows),
    ensures
        distinct(without(windows, ts)),
    decreases windows.len(),
{
    reveal(Seq::filter);
    if windows.len() > 0 {
        let rest = windows.drop_last();
        let keep = |w: WindowView| w.timestamp_5m != ts;
        assert forall|i: int, j: int| 0 <= i < j < rest.len() implies (
        #[trigger] rest[i]).timestamp_5m != (#[trigger] rest[j]).timestamp_5m by {
            assert(windows[i].timestamp_5m != windows[j].timestamp_5m);
        }
        lemma_without_distinct(rest, ts);
        crate::listing::lemma_filter_members(rest, keep);
        let before = without(rest, ts);
        let after = without(windows, ts);
        if keep(windows.last()) {
            assert(after == before.push(windows.last()));
            assert forall|i: int, j: int| 0 <= i < j < after.len() implies (
            #[trigger] after[i]).timestamp_5m != (#[trigger] after[j]).timestamp_5m by {
                if j == before.len() {
                    assert(before.contains(before[i]));
                    let k = choose|k: int| 0 <= k < rest.len() && rest[k] == before[i];
                    assert(windows[k].timestamp_5m != windows[windows.len() - 1].timestamp_5m);
                } else {
                    assert(before[i].timestamp_5m != before[j].timestamp_5m);
                }
            }
        } else {
            assert(after == before);
        }
    }
}

/// A closed window is gone, and every other window is still there.
pub proof fn law_closed_window_is_gone(windows: Seq<WindowView>, ts: u64)
    ensures
        !has_window(without(windows, ts), ts),
        forall|other: u64| other != ts ==> (#[trigger] has_window(without(windows, ts), other)
            <==> has_window(windows, other)),
    decreases windows.len(),
{
    let keep = |w: WindowView| w.timestamp_5m != ts;
    let after = without(windows, ts);
    crate::listing::lemma_filter_members(windows, keep);
    assert forall|other: u64| other != ts implies (#[trigger] has_window(after, other)
        <==> has_window(windows, other)) by {
        if has_window(windows, other) {
            let i = choose|i: int|
                0 <= i < windows.len() && (#[trigger] windows[i]).timestamp_5m == other;
            assert(keep(windows[i]));
            assert(after.contains(windows[i]));
        }
        if has_window(after, other) {
            let i = choose|i: int| 0 <= i < after.len() && (#[trigger] after[i]).timestamp_5m == other;
            assert(after.contains(after[i]));
            assert(windows.contains(after[i]));
        }
    }
    if has_window(after, ts) {
        let i = choose|i: int| 0 <= i < after.len() && (#[trigger] after[i]).timestamp_5m == ts;
        assert(after.contains(after[i]));
        assert(keep(after[i]));
    }
}

/// A window that is opened joins the others in front, expanded and without orders; the others stay
/// as they are. One that is there already changes nothing.
pub proof fn law_opened_window_joins_in_front(windows: Seq<WindowView>, ts: u64)
    ensures
        ({
            let after = ensured(windows, ts);
            let there = exists|i: int| 0 <= i < windows.len() && (#[trigger] windows[i]).timestamp_5m
                == ts;
            &&& there ==> after == windows
            &&& !there ==> after.len() == windows.len() + 1 && after.skip(1) == windows
                && after[0].timestamp_5m == ts && after[0].is_expanded && after[0].order_ids.len()
                == 0
        }),
{
    if !has_window(windows, ts) {
        assert(ensured(windows, ts).skip(1) =~= windows);
    }
}

/// Closing a window takes away exactly the windows of its time; every other one stays as it is.
pub proof fn law_closing_takes_the_window_only(windows: Seq<WindowView>, ts: u64, w: WindowView)
    ensures
        without(windows, ts).contains(w) <==> windows.contains(w) && w.timestamp_5m != ts,
{
    crate::listing::lemma_filter_members(windows, |w: WindowView| w.timestamp_5m != ts);
}

/// An order that is listed goes behind those of its window, or brings its window to the end, expanded
/// and with that order alone; every other window stays as it is.
pub proof fn law_listed_order_goes_to_its_window(windows: Seq<WindowView>, id: Seq<char>, ts: u64)
    requires
        distinct(windows),
    ensures
        ({
            let after = placed(windows, id, ts);
            let there = exists|i: int| 0 <= i < windows.len() && (#[trigger] windows[i]).timestamp_5m
                == ts;
            &&& there ==> after.len() == windows.len()
            &&& !there ==> after.len() == windows.len() + 1 && after.last().timestamp_5m == ts
                && after.last().is_expanded && after.last().order_ids == seq![id]
            &&& forall|i: int|
                0 <= i < windows.len() && (#[trigger] windows[i]).timestamp_5m == ts ==> after[i]
                    == (WindowView { order_ids: windows[i].order_ids.push(id), ..windows[i] })
            &&& forall|i: int|
                0 <= i < windows.len() && (#[trigger] windows[i]).timestamp_5m != ts ==> after[i]
                    == windows[i]
        }),
{
    lemma_position(windows, ts);
    let p = position(windows, ts);
    assert forall|i: int|
        0 <= i < windows.len() && (#[trigger] windows[i]).timestamp_5m == ts implies placed(
        windows,
        id,
        ts,
    )[i] == (WindowView { order_ids: windows[i].order_ids.push(id), ..windows[i] }) by {
        if i < p {
            assert(windows[i].timestamp_5m != ts);
        } else if i > p {
            assert(windows[p].timestamp_5m != windows[i].timestamp_5m);
        }
    }
}

/// Whether no list of orders names an order twice.
pub open spec fn listed_once(windows: Seq<WindowView>) -> bool {
    forall|i: int| 0 <= i < windows.len() ==> (#[trigger] windows[i]).order_ids.no_duplicates()
}

/// Adding orders one after the other lists each once, and the windows that they bring are expanded.
proof fn lemma_placed_once(
    windows: Seq<WindowView>,
    ids: Seq<Seq<char>>,
    orders: Map<Seq<char>, OrderView>,
)
    requires
        distinct(windows),
        forall|i: int| 0 <= i < windows.len() ==> (#[trigger] windows[i]).order_ids.len() == 0,
        ids.no_duplicates(),
        own_ids(ids, orders),
    ensures
        distinct(all_placed(windows, ids, orders)),
        listed_once(all_placed(windows, ids, orders)),
        windows.len() <= all_placed(windows, ids, orders).len(),
        forall|i: int|
            windows.len() <= i < all_placed(windows, ids, orders).len() ==> (#[trigger] all_placed(
                windows,
                ids,
                orders,
            )[i]).is_expanded,
    decreases ids.len(),
{
    if ids.len() > 0 {
        let rest = ids.drop_last();
        let before = all_placed(windows, rest, orders);
        let after = all_placed(windows, ids, orders);
        let id = orders[ids.last()].id;
        let ts = orders[ids.last()].window_ts;
        assert(own_ids(rest, orders)) by {
            assert forall|k: int| 0 <= k < rest.len() implies orders[#[trigger] rest[k]].id == rest[k] by {
                assert(ids[k] == rest[k]);
            }
        }
        assert(rest.no_duplicates()) by {
            assert forall|i: int, j: int| 0 <= i < rest.len() && 0 <= j < rest.len() && i != j implies rest[i]
                != rest[j] by {
                assert(ids[i] != ids[j]);
            }
        }
        lemma_placed_once(windows, rest, orders);
        lemma_all_placed(windows, rest, orders);
        lemma_placed(before, id, ts);
        law_listed_order_goes_to_its_window(before, id, ts);
        assert(id == ids[ids.len() - 1]);
        assert(!rest.contains(id)) by {
            if rest.contains(id) {
                let k = choose|k: int| 0 <= k < rest.len() && rest[k] == id;
                assert(ids[k] != ids[ids.len() - 1]);
            }
        }
        assert forall|i: int| 0 <= i < after.len() implies (
        #[trigger] after[i]).order_ids.no_duplicates() by {
            if i < before.len() {
                assert(before[i].order_ids.no_duplicates());
                assert(!before[i].order_ids.contains(id)) by {
                    assert(before[i].order_ids.contains(id) ==> rest.contains(id));
                }
                if before[i].timestamp_5m == ts {
                    let a = before[i].order_ids;
                    let b = after[i].order_ids;
                    assert(b == a.push(id));
                    assert forall|x: int, y: int| 0 <= x < b.len() && 0 <= y < b.len() && x != y implies b[x]
                        != b[y] by {
                        if x < a.len() && y < a.len() {
                            assert(a[x] != a[y]);
                        } else if x < a.len() {
                            assert(a.contains(a[x]));
                        } else {
                            assert(a.contains(a[y]));
                        }
                    }
                }
            } else {
                assert(after[i].order_ids == seq![id]);
            }
        }
        assert forall|i: int| windows.len() <= i < after.len() implies (
        #[trigger] after[i]).is_expanded by {
            if i < before.len() {
                assert(before[i].is_expanded);
            }
        }
    } else {
        assert(all_placed(windows, ids, orders) == windows);
        assert forall|i: int| 0 <= i < windows.len() implies (
        #[trigger] windows[i]).order_ids.no_duplicates() by {
            assert(windows[i].order_ids.len() == 0);
        }
    }
}

/// Listing the orders anew lists each order once, and shows the windows that orders bring expanded.
pub proof fn law_every_order_is_listed_once(
    after: Seq<WindowView>,
    before: Seq<WindowView>,
    orders: Map<Seq<char>, OrderView>,
)
    requires
        distinct(before),
        synced(after, before, orders),
        forall|id: Seq<char>| #[trigger] orders.contains_key(id) ==> orders[id].id == id,
    ensures
        forall|i: int| 0 <= i < after.len() ==> (#[trigger] after[i]).order_ids.no_duplicates(),
        forall|i: int| before.len() <= i < after.len() ==> (#[trigger] after[i]).is_expanded,
{
    let ids = choose|ids: Seq<Seq<char>>| #[trigger]
        lists_all(ids, orders) && after == all_placed(cleared(before), ids, orders);
    let start = cleared(before);
    assert forall|i: int, j: int| 0 <= i < j < start.len() implies (
    #[trigger] start[i]).timestamp_5m != (#[trigger] start[j]).timestamp_5m by {
        assert(before[i].timestamp_5m != before[j].timestamp_5m);
    }
    assert(own_ids(ids, orders)) by {
        assert forall|k: int| 0 <= k < ids.len() implies orders[#[trigger] ids[k]].id == ids[k] by {
            assert(ids.contains(ids[k]));
        }
    }
    lemma_placed_once(start, ids, orders);
}

} // verus!
