//! The order book of one token: its best prices, its depth, and its ladder of asks.

use vstd::prelude::*;
use crate::decimal;
use crate::decimal::{add_decimals, decimal_below, divide_decimals, subtract_decimals, Dec};

verus! {

/// A price and the amount that is offered at it.
#[derive(Clone, Copy, Debug, PartialEq, Eq, Structural)]
pub struct BookLevel {
    pub price: Dec,
    pub size: Dec,
}

/// What is kept of a token's order book.
#[derive(Debug)]
pub struct OrderbookState {
    pub best_bid: Dec,
    pub best_ask: Dec,
    pub bid_depth: Dec,
    pub ask_depth: Dec,
    /// The asks, the lowest price first.
    pub asks: Vec<BookLevel>,
    pub timestamp_ms: u64,
}

/// Whether prices and sizes are amounts.
pub open spec fn levels_wf(levels: Seq<BookLevel>) -> bool {
    forall|i: int| 0 <= i < levels.len() ==> (#[trigger] levels[i]).price.wf() && levels[i].size.wf()
}

/// The highest price; the last one of several that are equal.
pub open spec fn highest(levels: Seq<BookLevel>) -> Option<Dec>
    decreases levels.len(),
{
    if levels.len() == 0 {
        None
    } else {
        match highest(levels.drop_last()) {
            Some(p) if levels.last().price.below(p) => Some(p),
            _ => Some(levels.last().price),
        }
    }
}

/// The lowest price; the first one of several that are equal.
pub open spec fn lowest(levels: Seq<BookLevel>) -> Option<Dec>
    decreases levels.len(),
{
    if levels.len() == 0 {
        None
    } else {
        match lowest(levels.drop_last()) {
            Some(p) if !levels.last().price.below(p) => Some(p),
            _ => Some(levels.last().price),
        }
    }
}

/// The sizes, added up in their order; nothing where a sum is no amount.
pub open spec fn depth(levels: Seq<BookLevel>) -> Option<Dec>
    decreases levels.len(),
{
    if levels.len() == 0 {
        Some(Dec::zero_spec())
    } else {
        match depth(levels.drop_last()) {
            Some(sum) => decimal::decimal_sum(sum, levels.last().size),
            None => None,
        }
    }
}

/// Whether the prices do not fall.
pub open spec fn ascending(levels: Seq<BookLevel>) -> bool {
    forall|i: int, j: int|
        0 <= i < j < levels.len() ==> !(#[trigger] levels[j]).price.below(
            (#[trigger] levels[i]).price,
        )
}

/// The amount, or zero.
pub open spec fn or_zero(d: Option<Dec>) -> Dec {
    match d {
        Some(d) => d,
        None => Dec::zero_spec(),
    }
}

/// The order of amounts is transitive.
pub proof fn lemma_not_below_transitive(a: Dec, b: Dec, c: Dec)
    requires
        !b.below(a),
        !c.below(b),
    ensures
        !c.below(a),
{
    let (pa, pb, pc) = (
        decimal::pow10(a.scale as nat),
        decimal::pow10(b.scale as nat),
        decimal::pow10(c.scale as nat),
    );
    decimal::lemma_pow10_positive(a.scale as nat);
    decimal::lemma_pow10_positive(b.scale as nat);
    decimal::lemma_pow10_positive(c.scale as nat);
    let (x, y, z) = (a.mantissa as int, b.mantissa as int, c.mantissa as int);
    assert(x * pc <= z * pa) by (nonlinear_arith)
        requires
            pa > 0,
            pb > 0,
            pc > 0,
            x * pb <= y * pa,
            y * pc <= z * pb,
    {
        assert((x * pb) * pc <= (y * pa) * pc);
        assert((y * pc) * pa <= (z * pb) * pa);
        assert((y * pa) * pc == (y * pc) * pa);
        assert((x * pb) * pc == (x * pc) * pb);
        assert((z * pb) * pa == (z * pa) * pb);
        assert((x * pc) * pb <= (z * pa) * pb);
    }
}

/// No amount is below itself, and of two amounts at most one is below the other.
pub proof fn lemma_below_one_way(a: Dec, b: Dec)
    ensures
        a.below(b) ==> !b.below(a),
{
}

/// No bid is above the best bid, and no ask is below the best ask.
pub proof fn law_best_prices_bound_the_book(levels: Seq<BookLevel>, i: int)
    requires
        0 <= i < levels.len(),
    ensures
        highest(levels) is Some && !highest(levels)->0.below(levels[i].price),
        lowest(levels) is Some && !levels[i].price.below(lowest(levels)->0),
    decreases levels.len(),
{
    let rest = levels.drop_last();
    let last = levels.last().price;
    if i < levels.len() - 1 {
        law_best_prices_bound_the_book(rest, i);
        assert(rest[i] == levels[i]);
        let h = highest(rest)->0;
        if !last.below(h) {
            lemma_not_below_transitive(levels[i].price, h, last);
        }
        let l = lowest(rest)->0;
        if last.below(l) {
            lemma_below_one_way(last, l);
            lemma_not_below_transitive(last, l, levels[i].price);
        }
    } else {
        if levels.len() > 1 {
            law_best_prices_bound_the_book(rest, 0);
            let h = highest(rest)->0;
            if last.below(h) {
                lemma_below_one_way(last, h);
            }
        }
    }
}

/// The highest price.
fn best_of_bids(levels: &Vec<BookLevel>) -> (r: Option<Dec>)
    requires
        levels_wf(levels@),
    ensures
        r == highest(levels@),
{
    let mut best: Option<Dec> = None;
    let mut i: usize = 0;
    assert(levels@.take(0) =~= Seq::empty());
    while i < levels.len()
        invariant
            i <= levels.len(),
            levels_wf(levels@),
            best == highest(levels@.take(i as int)),
            best is Some ==> best->0.wf(),
        decreases levels.len() - i,
    {
        let price = levels[i].price;
        assert(levels@[i as int].price.wf());
        assert(levels@.take(i + 1).drop_last() =~= levels@.take(i as int));
        assert(levels@.take(i + 1).last() == levels@[i as int]);
        let keep = match best {
            Some(p) => decimal_below(price, p),
            None => false,
        };
        if !keep {
            best = Some(price);
        }
        i = i + 1;
    }
    assert(levels@.take(i as int) =~= levels@);
    best
}

/// The lowest price.
fn best_of_asks(levels: &Vec<BookLevel>) -> (r: Option<Dec>)
    requires
        levels_wf(levels@),
    ensures
        r == lowest(levels@),
{
    let mut best: Option<Dec> = None;
    let mut i: usize = 0;
    assert(levels@.take(0) =~= Seq::empty());
    while i < levels.len()
        invariant
            i <= levels.len(),
            levels_wf(levels@),
            best == lowest(levels@.take(i as int)),
            best is Some ==> best->0.wf(),
        decreases levels.len() - i,
    {
        let price = levels[i].price;
        assert(levels@[i as int].price.wf());
        assert(levels@.take(i + 1).drop_last() =~= levels@.take(i as int));
        assert(levels@.take(i + 1).last() == levels@[i as int]);
        let keep = match best {
            Some(p) => !decimal_below(price, p),
            None => false,
        };
        if !keep {
            best = Some(price);
        }
        i = i + 1;
    }
    assert(levels@.take(i as int) =~= levels@);
    best
}

/// Where a part of the sizes cannot be added up, neither can the whole.
proof fn lemma_depth_fails(levels: Seq<BookLevel>, n: int)
    requires
        0 <= n <= levels.len(),
        depth(levels.take(n)) is None,
    ensures
        depth(levels) is None,
    decreases levels.len() - n,
{
    if n < levels.len() {
        assert(levels.take(n + 1).drop_last() =~= levels.take(n));
        lemma_depth_fails(levels, n + 1);
    } else {
        assert(levels.take(n) =~= levels);
    }
}

/// The sizes, added up.
fn total_size(levels: &Vec<BookLevel>) -> (r: Option<Dec>)
    requires
        levels_wf(levels@),
    ensures
        r == depth(levels@),
        r is Some ==> r->0.wf(),
{
    let mut sum = Dec { mantissa: 0, scale: 0 };
    let mut i: usize = 0;
    assert(levels@.take(0) =~= Seq::empty());
    while i < levels.len()
        invariant
            i <= levels.len(),
            levels_wf(levels@),
            sum.wf(),
            depth(levels@.take(i as int)) == Some(sum),
        decreases levels.len() - i,
    {
        let size = levels[i].size;
        assert(levels@[i as int].size.wf());
        assert(levels@.take(i + 1).drop_last() =~= levels@.take(i as int));
        assert(levels@.take(i + 1).last() == levels@[i as int]);
        match add_decimals(sum, size) {
            Some(next) => {
                sum = next;
            },
            None => {
                proof {
                    lemma_depth_fails(levels@, i + 1);
                }
                return None;
            },
        }
        i = i + 1;
    }
    assert(levels@.take(i as int) =~= levels@);
    Some(sum)
}

/// Puts a level into an ascending list, behind those that are not above it.
fn insert_ascending(sorted: &mut Vec<BookLevel>, level: BookLevel)
    requires
        levels_wf(old(sorted)@),
        ascending(old(sorted)@),
        level.price.wf(),
        level.size.wf(),
    ensures
        levels_wf(final(sorted)@),
        ascending(final(sorted)@),
        final(sorted)@.to_multiset() == old(sorted)@.to_multiset().insert(level),
{
    let ghost before = sorted@;
    let mut at: usize = sorted.len();
    while at > 0 && decimal_below(level.price, sorted[at - 1].price)
        invariant
            at <= sorted@.len(),
            sorted@ == before,
            levels_wf(before),
            ascending(before),
            level.price.wf(),
            forall|k: int| at <= k < before.len() ==> level.price.below((#[trigger] before[k]).price),
        decreases at,
    {
        at = at - 1;
    }
    sorted.insert(at, level);
    proof {
        let after = sorted@;
        assert forall|i: int, j: int| 0 <= i < j < after.len() implies !(
        #[trigger] after[j]).price.below((#[trigger] after[i]).price) by {
            if j < at {
                assert(after[j] == before[j] && after[i] == before[i]);
            } else if j == at {
                assert(after[i] == before[i]);
                assert(before[at - 1] == after[at - 1]);
                if i < at - 1 {
                    lemma_not_below_transitive(before[i].price, before[at - 1].price, level.price);
                }
            } else {
                assert(after[j] == before[j - 1]);
                lemma_below_one_way(level.price, before[j - 1].price);
                if i < at {
                    assert(after[i] == before[i]);
                } else if i > at {
                    assert(after[i] == before[i - 1]);
                }
            }
        }
        vstd::seq_lib::to_multiset_insert(before, at as int, level);
    }
}

/// The levels, the lowest price first.
fn sorted_levels(levels: &Vec<BookLevel>) -> (r: Vec<BookLevel>)
    requires
        levels_wf(levels@),
    ensures
        levels_wf(r@),
        ascending(r@),
        r@.to_multiset() == levels@.to_multiset(),
{
    let mut out: Vec<BookLevel> = Vec::new();
    let mut i: usize = 0;
    assert(levels@.take(0) =~= out@);
    while i < levels.len()
        invariant
            i <= levels.len(),
            levels_wf(levels@),
            levels_wf(out@),
            ascending(out@),
            out@.to_multiset() == levels@.take(i as int).to_multiset(),
        decreases levels.len() - i,
    {
        let level = levels[i];
        assert(levels@[i as int].price.wf());
        insert_ascending(&mut out, level);
        proof {
            levels@.take(i as int).to_multiset_ensures();
            assert(levels@.take(i + 1) =~= levels@.take(i as int).push(level));
        }
        i = i + 1;
    }
    assert(levels@.take(i as int) =~= levels@);
    out
}

impl OrderbookState {
    /// The amounts are amounts.
    pub open spec fn wf(self) -> bool {
        self.best_bid.wf() && self.best_ask.wf() && self.bid_depth.wf() && self.ask_depth.wf()
    }

    /// Whether this is what is kept of a book. Asks of the same price may be in any order.
    pub open spec fn is_of(
        self,
        bids: Seq<BookLevel>,
        asks: Seq<BookLevel>,
        timestamp_ms: u64,
    ) -> bool {
        &&& self.best_bid == or_zero(highest(bids))
        &&& self.best_ask == or_zero(lowest(asks))
        &&& Some(self.bid_depth) == depth(bids)
        &&& Some(self.ask_depth) == depth(asks)
        &&& ascending(self.asks@)
        &&& self.asks@.to_multiset() == asks.to_multiset()
        &&& self.timestamp_ms == timestamp_ms
    }

    /// What is kept of a book; nothing where the sizes of a side do not add up to an amount.
    pub fn of_book(bids: &Vec<BookLevel>, asks: &Vec<BookLevel>, timestamp_ms: u64) -> (r: Option<
        OrderbookState,
    >)
        requires
            levels_wf(bids@),
            levels_wf(asks@),
        ensures
            r is Some <==> depth(bids@) is Some && depth(asks@) is Some,
            r is Some ==> r->0.is_of(bids@, asks@, timestamp_ms) && r->0.wf(),
    {
        let bid_depth = match total_size(bids) {
            Some(d) => d,
            None => return None,
        };
        let ask_depth = match total_size(asks) {
            Some(d) => d,
            None => return None,
        };
        proof {
            lemma_best_wf(bids@);
            lemma_best_wf(asks@);
        }
        let zero = Dec { mantissa: 0, scale: 0 };
        let best_bid = match best_of_bids(bids) {
            Some(p) => p,
            None => zero,
        };
        let best_ask = match best_of_asks(asks) {
            Some(p) => p,
            None => zero,
        };
        Some(
            OrderbookState {
                best_bid,
                best_ask,
                bid_depth,
                ask_depth,
                asks: sorted_levels(asks),
                timestamp_ms,
            },
        )
    }
}

/// The best prices of amounts are amounts.
proof fn lemma_best_wf(levels: Seq<BookLevel>)
    requires
        levels_wf(levels),
    ensures
        highest(levels) is Some ==> highest(levels)->0.wf(),
        lowest(levels) is Some ==> lowest(levels)->0.wf(),
    decreases levels.len(),
{
    if levels.len() > 0 {
        let rest = levels.drop_last();
        assert forall|i: int| 0 <= i < rest.len() implies (#[trigger] rest[i]).price.wf()
            && rest[i].size.wf() by {
            assert(rest[i] == levels[i]);
        }
        lemma_best_wf(rest);
        assert(levels[levels.len() - 1].price.wf());
    }
}

/// The spread as a share of the best ask, and zero where that is zero; nothing where the
/// arithmetic leaves the range of amounts.
pub open spec fn spread_share_spec(best_bid: Dec, best_ask: Dec) -> Option<Dec> {
    if best_ask.mantissa == 0 {
        Some(Dec::zero_spec())
    } else {
        match decimal::decimal_difference(best_ask, best_bid) {
            Some(spread) => decimal::decimal_quotient(spread, best_ask),
            None => None,
        }
    }
}

/// The spread as a share of the best ask.
pub fn spread_share(best_bid: Dec, best_ask: Dec) -> (r: Option<Dec>)
    requires
        best_bid.wf(),
        best_ask.wf(),
    ensures
        r == spread_share_spec(best_bid, best_ask),
        r is Some ==> r->0.wf(),
{
    if best_ask.mantissa == 0 {
        return Some(Dec { mantissa: 0, scale: 0 });
    }
    match subtract_decimals(best_ask, best_bid) {
        Some(spread) => divide_decimals(spread, best_ask),
        None => None,
    }
}

/// The best prices are prices of the book.
proof fn lemma_best_prices_are_in_the_book(levels: Seq<BookLevel>)
    requires
        levels.len() > 0,
    ensures
        highest(levels) is Some && exists|i: int|
            0 <= i < levels.len() && (#[trigger] levels[i]).price == highest(levels)->0,
        lowest(levels) is Some && exists|i: int|
            0 <= i < levels.len() && (#[trigger] levels[i]).price == lowest(levels)->0,
    decreases levels.len(),
{
    let rest = levels.drop_last();
    assert(levels[levels.len() - 1] == levels.last());
    if rest.len() > 0 {
        lemma_best_prices_are_in_the_book(rest);
        let h = choose|i: int| 0 <= i < rest.len() && (#[trigger] rest[i]).price == highest(rest)->0;
        let l = choose|i: int| 0 <= i < rest.len() && (#[trigger] rest[i]).price == lowest(rest)->0;
        assert(levels[h] == rest[h] && levels[l] == rest[l]);
    } else {
        assert(highest(rest) is None && lowest(rest) is None);
    }
}

/// What is kept of a book is what the book says: the best bid is a bid that none is above, the
/// best ask an ask that none is below, each zero where its side is empty, and the asks are all
/// there, the lowest first.
pub proof fn law_kept_book_has_the_best_prices(
    b: OrderbookState,
    bids: Seq<BookLevel>,
    asks: Seq<BookLevel>,
    timestamp_ms: u64,
)
    requires
        b.is_of(bids, asks, timestamp_ms),
    ensures
        b.timestamp_ms == timestamp_ms,
        depth(bids) == Some(b.bid_depth),
        depth(asks) == Some(b.ask_depth),
        bids.len() == 0 ==> b.best_bid.mantissa == 0,
        asks.len() == 0 ==> b.best_ask.mantissa == 0,
        bids.len() > 0 ==> exists|i: int|
            0 <= i < bids.len() && (#[trigger] bids[i]).price == b.best_bid,
        asks.len() > 0 ==> exists|i: int|
            0 <= i < asks.len() && (#[trigger] asks[i]).price == b.best_ask,
        forall|i: int| 0 <= i < bids.len() ==> !b.best_bid.below((#[trigger] bids[i]).price),
        forall|i: int| 0 <= i < asks.len() ==> !(#[trigger] asks[i]).price.below(b.best_ask),
        b.asks@.len() == asks.len(),
        forall|level: BookLevel| #[trigger] b.asks@.contains(level) <==> asks.contains(level),
        forall|i: int, j: int|
            0 <= i < j < b.asks@.len() ==> !(#[trigger] b.asks@[j]).price.below(
                (#[trigger] b.asks@[i]).price,
            ),
{
    if bids.len() > 0 {
        lemma_best_prices_are_in_the_book(bids);
    }
    if asks.len() > 0 {
        lemma_best_prices_are_in_the_book(asks);
    }
    assert forall|i: int| 0 <= i < bids.len() implies !b.best_bid.below(
        (#[trigger] bids[i]).price,
    ) by {
        law_best_prices_bound_the_book(bids, i);
    }
    assert forall|i: int| 0 <= i < asks.len() implies !(#[trigger] asks[i]).price.below(
        b.best_ask,
    ) by {
        law_best_prices_bound_the_book(asks, i);
    }
    b.asks@.to_multiset_ensures();
    asks.to_multiset_ensures();
    assert forall|level: BookLevel| #[trigger] b.asks@.contains(level) <==> asks.contains(level) by {
        assert(b.asks@.contains(level) <==> b.asks@.to_multiset().count(level) > 0);
        assert(asks.contains(level) <==> asks.to_multiset().count(level) > 0);
    }
}

/// The depth of a side counts every level: it is zero for an empty side, and a further level adds
/// its size.
pub proof fn law_depth_counts_every_level(levels: Seq<BookLevel>, level: BookLevel)
    ensures
        depth(Seq::empty()) == Some(Dec { mantissa: 0, scale: 0 }),
        depth(levels) is Some ==> depth(levels.push(level)) == decimal::decimal_sum(
            depth(levels)->0,
            level.size,
        ),
        depth(levels) is None ==> depth(levels.push(level)) is None,
{
    assert(levels.push(level).drop_last() =~= levels);
}

/// The spread is measured against the best ask: the distance of the ask from the bid, divided by
/// the ask, and zero where there is no ask.
pub proof fn law_spread_is_a_share_of_the_ask(best_bid: Dec, best_ask: Dec)
    ensures
        best_ask.mantissa == 0 ==> spread_share_spec(best_bid, best_ask) == Some(
            Dec { mantissa: 0, scale: 0 },
        ),
        best_ask.mantissa != 0 && decimal::decimal_difference(best_ask, best_bid) is None
            ==> spread_share_spec(best_bid, best_ask) is None,
        best_ask.mantissa != 0 && decimal::decimal_difference(best_ask, best_bid) is Some
            ==> spread_share_spec(best_bid, best_ask) == decimal::decimal_quotient(
            decimal::decimal_difference(best_ask, best_bid)->0,
            best_ask,
        ),
{
}

} // verus!
