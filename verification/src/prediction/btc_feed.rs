//! The feed of bitcoin's price: what becomes of a merged order book and of a cleaned price, and
//! which samples go into which feature.

use vstd::prelude::*;
use crate::decimal::{decimal_below, Dec};
use crate::double::Double;
use crate::prediction::btc_aggregator::pipeline::CleanPrice;
use crate::prediction::btc_aggregator::tick;
use crate::prediction::btc_aggregator::tick::{Exchange, ExchangeTick, Level};
use crate::prediction::features::BtcFeatures;
use crate::prediction::samples::BtcSample;
use crate::prediction::storage;
use crate::prediction::storage::{minus_or_zero, RollingWindow};
use crate::prediction::token_book::{lemma_below_one_way, lemma_not_below_transitive};
use crate::prediction::window_state;
use crate::prediction::window_state::{BtcReading, WindowState};

verus! {

/// How long prices are kept, in milliseconds: one hour.
pub const HISTORY_MS: u64 = 3_600_000;

/// How far back the range of the price reaches, in milliseconds: five minutes.
pub const RANGE_MS: u64 = 300_000;

/// A level of a merged order book, with the exchange that it comes from.
#[derive(Clone, Copy, Debug, PartialEq, Eq, Structural)]
pub struct MergedLevel {
    pub exchange: Exchange,
    pub price: Dec,
    pub amount: Dec,
}

/// The levels of one exchange, in the order of the merged book.
pub open spec fn levels_of(levels: Seq<MergedLevel>, exchange: Exchange) -> Seq<Level>
    decreases levels.len(),
{
    if levels.len() == 0 {
        Seq::empty()
    } else {
        let rest = levels_of(levels.drop_last(), exchange);
        let last = levels.last();
        if last.exchange == exchange {
            rest.push(Level { price: last.price, amount: last.amount })
        } else {
            rest
        }
    }
}

/// The levels of one exchange.
fn pick_levels(levels: &Vec<MergedLevel>, exchange: Exchange) -> (r: Vec<Level>)
    ensures
        r@ == levels_of(levels@, exchange),
{
    let mut out: Vec<Level> = Vec::new();
    let mut i: usize = 0;
    assert(levels@.take(0) =~= Seq::empty());
    while i < levels.len()
        invariant
            i <= levels.len(),
            out@ == levels_of(levels@.take(i as int), exchange),
        decreases levels.len() - i,
    {
        let level = levels[i];
        assert(levels@.take(i + 1).drop_last() =~= levels@.take(i as int));
        assert(levels@.take(i + 1).last() == level);
        if level.exchange == exchange {
            out.push(Level { price: level.price, amount: level.amount });
        }
        i = i + 1;
    }
    assert(levels@.take(i as int) =~= levels@);
    out
}

/// Whether an exchange has a level in a merged book.
pub open spec fn present(bids: Seq<MergedLevel>, asks: Seq<MergedLevel>, exchange: Exchange) -> bool {
    levels_of(bids, exchange).len() > 0 || levels_of(asks, exchange).len() > 0
}

/// Whether a tick is the part of a merged book that comes from its exchange.
pub open spec fn is_part(
    t: ExchangeTick,
    bids: Seq<MergedLevel>,
    asks: Seq<MergedLevel>,
    received_ms: u64,
) -> bool {
    t.received_ms == received_ms && t.bids@ == levels_of(bids, t.exchange) && t.asks@ == levels_of(
        asks,
        t.exchange,
    ) && present(bids, asks, t.exchange)
}

/// Adds an exchange's part of a merged book to a list, where it has one.
fn push_part(
    out: &mut Vec<ExchangeTick>,
    bids: &Vec<MergedLevel>,
    asks: &Vec<MergedLevel>,
    exchange: Exchange,
    received_ms: u64,
)
    ensures
        present(bids@, asks@, exchange) ==> {
            &&& final(out)@.len() == old(out)@.len() + 1
            &&& final(out)@.drop_last() == old(out)@
            &&& final(out)@.last().exchange == exchange
            &&& is_part(final(out)@.last(), bids@, asks@, received_ms)
        },
        !present(bids@, asks@, exchange) ==> final(out)@ == old(out)@,
{
    let b = pick_levels(bids, exchange);
    let a = pick_levels(asks, exchange);
    if b.len() > 0 || a.len() > 0 {
        out.push(ExchangeTick { exchange, received_ms, bids: b, asks: a });
        assert(out@.drop_last() =~= old(out)@);
    }
}

/// Splits a merged order book by exchange: one tick for each exchange that has a level in it,
/// with all its levels in their order.
pub fn split_by_exchange(bids: &Vec<MergedLevel>, asks: &Vec<MergedLevel>, received_ms: u64) -> (r:
    Vec<ExchangeTick>)
    ensures
        forall|i: int| 0 <= i < r@.len() ==> is_part(#[trigger] r@[i], bids@, asks@, received_ms),
        forall|i: int, j: int|
            0 <= i < j < r@.len() ==> (#[trigger] r@[i]).exchange != (#[trigger] r@[j]).exchange,
        forall|e: Exchange| #[trigger]
            present(bids@, asks@, e) ==> exists|i: int|
                0 <= i < r@.len() && (#[trigger] r@[i]).exchange == e,
{
    let mut out: Vec<ExchangeTick> = Vec::new();
    push_part(&mut out, bids, asks, Exchange::Binance, received_ms);
    let ghost a = out@;
    push_part(&mut out, bids, asks, Exchange::Coinbase, received_ms);
    let ghost b = out@;
    push_part(&mut out, bids, asks, Exchange::Kraken, received_ms);
    let ghost c = out@;
    push_part(&mut out, bids, asks, Exchange::Bitstamp, received_ms);
    let ghost d = out@;
    proof {
        assert(forall|i: int| 0 <= i < a.len() ==> a[i] == b[i]) by {
            assert(b.len() > a.len() ==> b.drop_last() == a);
        }
        assert(forall|i: int| 0 <= i < b.len() ==> b[i] == c[i]) by {
            assert(c.len() > b.len() ==> c.drop_last() == b);
        }
        assert(forall|i: int| 0 <= i < c.len() ==> c[i] == d[i]) by {
            assert(d.len() > c.len() ==> d.drop_last() == c);
        }
        assert forall|e: Exchange| #[trigger] present(bids@, asks@, e) implies exists|i: int|
            0 <= i < d.len() && (#[trigger] d[i]).exchange == e by {
            if e is Binance {
                assert(d[0].exchange == e);
            } else if e is Coinbase {
                assert(b.last() == d[b.len() - 1]);
                assert(d[b.len() - 1].exchange == e);
            } else if e is Kraken {
                assert(c.last() == d[c.len() - 1]);
                assert(d[c.len() - 1].exchange == e);
            } else {
                assert(d[d.len() - 1].exchange == e);
            }
        }
    }
    out
}

/// Every level of a merged book goes to exactly one exchange: the parts have as many levels as
/// the whole.
pub proof fn law_split_loses_no_level(levels: Seq<MergedLevel>)
    ensures
        levels_of(levels, Exchange::Binance).len() + levels_of(levels, Exchange::Coinbase).len()
            + levels_of(levels, Exchange::Kraken).len() + levels_of(
            levels,
            Exchange::Bitstamp,
        ).len() == levels.len(),
    decreases levels.len(),
{
    if levels.len() > 0 {
        law_split_loses_no_level(levels.drop_last());
    }
}

/// The age of a sample at a time.
pub open spec fn age(sample: BtcSample, now_ms: u64) -> u64 {
    storage::minus(now_ms, sample.timestamp_ms)
}

/// The prices of the samples that are not older than `limit_ms`, in their order.
pub open spec fn recent_prices(samples: Seq<BtcSample>, now_ms: u64, limit_ms: u64) -> Seq<Dec>
    decreases samples.len(),
{
    if samples.len() == 0 {
        Seq::empty()
    } else {
        let rest = recent_prices(samples.drop_last(), now_ms, limit_ms);
        if age(samples.last(), now_ms) <= limit_ms {
            rest.push(samples.last().price)
        } else {
            rest
        }
    }
}

/// The prices of the samples that are not older than `limit_ms`, in their order.
pub fn prices_within(window: &RollingWindow<BtcSample>, now_ms: u64, limit_ms: u64) -> (r: Vec<Dec>)
    ensures
        r@ == recent_prices(window@, now_ms, limit_ms),
{
    let samples = window.samples();
    let mut out: Vec<Dec> = Vec::new();
    let mut i: usize = 0;
    assert(samples@.take(0) =~= Seq::empty());
    while i < samples.len()
        invariant
            i <= samples@.len(),
            out@ == recent_prices(samples@.take(i as int), now_ms, limit_ms),
        decreases samples@.len() - i,
    {
        let sample = samples[i];
        assert(samples@.take(i + 1).drop_last() =~= samples@.take(i as int));
        assert(samples@.take(i + 1).last() == sample);
        if minus_or_zero(now_ms, sample.timestamp_ms) <= limit_ms {
            out.push(sample.price);
        }
        i = i + 1;
    }
    assert(samples@.take(i as int) =~= samples@);
    out
}

/// A longer limit takes in every price that a shorter one does.
pub proof fn law_longer_stretch_has_more(
    samples: Seq<BtcSample>,
    now_ms: u64,
    shorter: u64,
    longer: u64,
)
    requires
        shorter <= longer,
    ensures
        recent_prices(samples, now_ms, shorter).len() <= recent_prices(
            samples,
            now_ms,
            longer,
        ).len() <= samples.len(),
    decreases samples.len(),
{
    if samples.len() > 0 {
        law_longer_stretch_has_more(samples.drop_last(), now_ms, shorter, longer);
    }
}

/// Whether every price is an amount.
pub open spec fn samples_wf(samples: Seq<BtcSample>) -> bool {
    forall|i: int| 0 <= i < samples.len() ==> (#[trigger] samples[i]).price.wf()
}

/// The highest and the lowest price of the samples that are not older than [`RANGE_MS`],
/// beginning with `start`. Of equal prices the first stays.
pub open spec fn extremes_spec(samples: Seq<BtcSample>, now_ms: u64, start: Dec) -> (Dec, Dec)
    decreases samples.len(),
{
    if samples.len() == 0 {
        (start, start)
    } else {
        let (high, low) = extremes_spec(samples.drop_last(), now_ms, start);
        let price = samples.last().price;
        if age(samples.last(), now_ms) <= RANGE_MS {
            (
                if high.below(price) { price } else { high },
                if price.below(low) { price } else { low },
            )
        } else {
            (high, low)
        }
    }
}

/// The range of five minutes holds every price of that time and its own beginning, and both of
/// its ends are such prices.
pub proof fn law_range_is_that_of_five_minutes(samples: Seq<BtcSample>, now_ms: u64, start: Dec)
    ensures
        ({
            let (high, low) = extremes_spec(samples, now_ms, start);
            let recent = recent_prices(samples, now_ms, RANGE_MS);
            &&& !high.below(start) && !start.below(low)
            &&& forall|i: int|
                0 <= i < recent.len() ==> !high.below(#[trigger] recent[i]) && !recent[i].below(low)
            &&& high == start || recent.contains(high)
            &&& low == start || recent.contains(low)
        }),
    decreases samples.len(),
{
    if samples.len() > 0 {
        let rest = samples.drop_last();
        let price = samples.last().price;
        let (h, l) = extremes_spec(rest, now_ms, start);
        let before = recent_prices(rest, now_ms, RANGE_MS);
        law_range_is_that_of_five_minutes(rest, now_ms, start);
        if age(samples.last(), now_ms) <= RANGE_MS {
            let recent = before.push(price);
            let (high, low) = extremes_spec(samples, now_ms, start);
            assert(recent[before.len() as int] == price);
            assert(recent.contains(price));
            if before.contains(h) {
                let k = choose|k: int| 0 <= k < before.len() && before[k] == h;
                assert(recent[k] == h);
            }
            if before.contains(l) {
                let k = choose|k: int| 0 <= k < before.len() && before[k] == l;
                assert(recent[k] == l);
            }
            lemma_below_one_way(h, price);
            lemma_below_one_way(price, l);
            if h.below(price) {
                lemma_not_below_transitive(start, h, price);
            }
            if price.below(l) {
                lemma_not_below_transitive(price, l, start);
            }
            assert forall|i: int| 0 <= i < recent.len() implies !high.below(#[trigger] recent[i])
                && !recent[i].below(low) by {
                if i < before.len() {
                    assert(recent[i] == before[i]);
                    if h.below(price) {
                        lemma_not_below_transitive(before[i], h, price);
                    }
                    if price.below(l) {
                        lemma_not_below_transitive(price, l, before[i]);
                    }
                } else {
                    lemma_below_one_way(price, price);
                }
            }
        }
    }
}

/// The highest and the lowest price of the samples that are not older than [`RANGE_MS`],
/// beginning with `start`.
pub fn extremes(window: &RollingWindow<BtcSample>, now_ms: u64, start: Dec) -> (r: (Dec, Dec))
    requires
        samples_wf(window@),
        start.wf(),
    ensures
        r == extremes_spec(window@, now_ms, start),
{
    let samples = window.samples();
    let mut high = start;
    let mut low = start;
    let mut i: usize = 0;
    assert(samples@.take(0) =~= Seq::empty());
    while i < samples.len()
        invariant
            i <= samples@.len(),
            samples_wf(samples@),
            high.wf(),
            low.wf(),
            (high, low) == extremes_spec(samples@.take(i as int), now_ms, start),
        decreases samples@.len() - i,
    {
        let sample = samples[i];
        let price = sample.price;
        assert(samples@[i as int].price.wf());
        assert(samples@.take(i + 1).drop_last() =~= samples@.take(i as int));
        assert(samples@.take(i + 1).last() == samples@[i as int]);
        if minus_or_zero(now_ms, sample.timestamp_ms) <= RANGE_MS {
            if decimal_below(high, price) {
                high = price;
            }
            if decimal_below(price, low) {
                low = price;
            }
        }
        i = i + 1;
    }
    assert(samples@.take(i as int) =~= samples@);
    (high, low)
}

/// The price that stands for a bucket of time, counted back from `now_ms` in steps of
/// `stride_ms`: that of the last sample in it.
pub open spec fn bucket_price(
    samples: Seq<BtcSample>,
    now_ms: u64,
    stride_ms: u64,
    horizon_ms: u64,
    bucket: int,
) -> Option<Dec>
    decreases samples.len(),
{
    if samples.len() == 0 {
        None
    } else {
        let a = age(samples.last(), now_ms);
        if a <= horizon_ms && a / stride_ms == bucket {
            Some(samples.last().price)
        } else {
            bucket_price(samples.drop_last(), now_ms, stride_ms, horizon_ms, bucket)
        }
    }
}

/// The prices of the buckets from number `n - 1` down to zero, leaving out empty ones: oldest
/// first.
pub open spec fn bucket_prices(
    samples: Seq<BtcSample>,
    now_ms: u64,
    stride_ms: u64,
    horizon_ms: u64,
    n: nat,
) -> Seq<Dec>
    decreases n,
{
    if n == 0 {
        Seq::empty()
    } else {
        let rest = bucket_prices(samples, now_ms, stride_ms, horizon_ms, (n - 1) as nat);
        match bucket_price(samples, now_ms, stride_ms, horizon_ms, n - 1) {
            Some(p) => seq![p] + rest,
            None => rest,
        }
    }
}

/// Whether buckets with their prices are listed from the oldest on, none of them twice.
spec fn oldest_first(list: Seq<(u64, Dec)>) -> bool {
    forall|i: int, j: int| 0 <= i < j < list.len() ==> (#[trigger] list[i]).0 > (#[trigger] list[j]).0
}

/// Whether a bucket is in a list.
spec fn lists_bucket(list: Seq<(u64, Dec)>, bucket: int) -> bool {
    exists|i: int| 0 <= i < list.len() && (#[trigger] list[i]).0 == bucket
}

/// Whether a list holds the price of every bucket that has one, and nothing else.
spec fn lists_prices(
    list: Seq<(u64, Dec)>,
    samples: Seq<BtcSample>,
    now_ms: u64,
    stride_ms: u64,
    horizon_ms: u64,
) -> bool {
    &&& forall|i: int|
        0 <= i < list.len() ==> bucket_price(
            samples,
            now_ms,
            stride_ms,
            horizon_ms,
            (#[trigger] list[i]).0 as int,
        ) == Some(list[i].1)
    &&& forall|b: int|
        (#[trigger] bucket_price(samples, now_ms, stride_ms, horizon_ms, b)) is Some
            ==> lists_bucket(list, b)
}

/// The prices of a list.
spec fn listed(list: Seq<(u64, Dec)>) -> Seq<Dec> {
    list.map_values(|e: (u64, Dec)| e.1)
}

/// A list of all buckets with a price, the oldest first, has the prices of the buckets.
proof fn lemma_listed(
    list: Seq<(u64, Dec)>,
    samples: Seq<BtcSample>,
    now_ms: u64,
    stride_ms: u64,
    horizon_ms: u64,
    n: nat,
)
    requires
        oldest_first(list),
        forall|i: int| 0 <= i < list.len() ==> (#[trigger] list[i]).0 < n,
        forall|i: int|
            0 <= i < list.len() ==> bucket_price(
                samples,
                now_ms,
                stride_ms,
                horizon_ms,
                (#[trigger] list[i]).0 as int,
            ) == Some(list[i].1),
        forall|b: int|
            0 <= b < n && (#[trigger] bucket_price(samples, now_ms, stride_ms, horizon_ms, b)) is Some
                ==> lists_bucket(list, b),
    ensures
        listed(list) == bucket_prices(samples, now_ms, stride_ms, horizon_ms, n),
    decreases n,
{
    if n == 0 {
        if list.len() > 0 {
            assert(list[0].0 < n);
        }
        assert(listed(list) =~= Seq::<Dec>::empty());
    } else {
        let at = bucket_price(samples, now_ms, stride_ms, horizon_ms, n - 1);
        if list.len() > 0 && list[0].0 == n - 1 {
            let rest = list.skip(1);
            assert forall|i: int| 0 <= i < rest.len() implies (#[trigger] rest[i]).0 < n - 1 by {
                assert(rest[i] == list[i + 1]);
                assert(list[0].0 > list[i + 1].0);
            }
            assert forall|b: int|
                0 <= b < n - 1 && (#[trigger] bucket_price(
                    samples,
                    now_ms,
                    stride_ms,
                    horizon_ms,
                    b,
                )) is Some implies lists_bucket(rest, b) by {
                let k = choose|k: int| 0 <= k < list.len() && (#[trigger] list[k]).0 == b;
                assert(rest[k - 1] == list[k]);
            }
            lemma_listed(rest, samples, now_ms, stride_ms, horizon_ms, (n - 1) as nat);
            assert(listed(list) =~= seq![list[0].1] + listed(rest));
        } else {
            if at is Some {
                let k = choose|k: int| 0 <= k < list.len() && (#[trigger] list[k]).0 == n - 1;
                assert(list[0].0 < n);
                if k > 0 {
                    assert(list[0].0 > list[k].0);
                }
            }
            assert forall|i: int| 0 <= i < list.len() implies (#[trigger] list[i]).0 < n - 1 by {
                assert(list[i].0 < n);
            }
            lemma_listed(list, samples, now_ms, stride_ms, horizon_ms, (n - 1) as nat);
        }
    }
}

/// Puts the price of a bucket into a list, in place of the one that the bucket has there.
fn put_bucket(list: &mut Vec<(u64, Dec)>, bucket: u64, price: Dec)
    requires
        oldest_first(old(list)@),
    ensures
        oldest_first(final(list)@),
        forall|i: int|
            0 <= i < final(list)@.len() ==> (#[trigger] final(list)@[i]) == (bucket, price) || (
            final(list)@[i].0 != bucket && old(list)@.contains(final(list)@[i])),
        forall|b: int| #[trigger]
            lists_bucket(final(list)@, b) <==> b == bucket || lists_bucket(old(list)@, b),
{
    let ghost before = list@;
    let mut at: usize = list.len();
    while at > 0 && list[at - 1].0 < bucket
        invariant
            at <= list.len(),
            list@ == before,
            forall|k: int| at <= k < before.len() ==> (#[trigger] before[k]).0 < bucket,
        decreases at,
    {
        at = at - 1;
    }
    if at > 0 && list[at - 1].0 == bucket {
        list.set(at - 1, (bucket, price));
        proof {
            assert(list@ =~= before.update(at - 1, (bucket, price)));
            assert forall|i: int| 0 <= i < list@.len() implies (#[trigger] list@[i]) == (
                bucket,
                price,
            ) || (list@[i].0 != bucket && before.contains(list@[i])) by {
                if i != at - 1 {
                    assert(list@[i] == before[i]);
                }
            }
            assert forall|b: int| #[trigger] lists_bucket(list@, b) <==> b == bucket || lists_bucket(
                before,
                b,
            ) by {
                assert(list@[at - 1].0 == bucket);
                if lists_bucket(list@, b) {
                    let k = choose|k: int| 0 <= k < list@.len() && (#[trigger] list@[k]).0 == b;
                    assert(before[k].0 == b);
                }
                if lists_bucket(before, b) {
                    let k = choose|k: int| 0 <= k < before.len() && (#[trigger] before[k]).0 == b;
                    assert(list@[k].0 == b);
                }
            }
        }
    } else {
        list.insert(at, (bucket, price));
        proof {
            assert forall|i: int| 0 <= i < at implies (#[trigger] before[i]).0 > bucket by {
                if i < at - 1 {
                    assert(before[i].0 > before[at - 1].0);
                }
            }
            assert forall|i: int, j: int| 0 <= i < j < list@.len() implies (
            #[trigger] list@[i]).0 > (#[trigger] list@[j]).0 by {
                if i != at && j != at {
                    let a = if i < at { i } else { i - 1 };
                    let b = if j < at { j } else { j - 1 };
                    assert(before[a].0 > before[b].0);
                }
            }
            assert forall|i: int| 0 <= i < list@.len() implies (#[trigger] list@[i]) == (
                bucket,
                price,
            ) || (list@[i].0 != bucket && before.contains(list@[i])) by {
                if i < at {
                    assert(list@[i] == before[i]);
                } else if i > at {
                    assert(list@[i] == before[i - 1]);
                }
            }
            assert forall|b: int| #[trigger] lists_bucket(list@, b) <==> b == bucket || lists_bucket(
                before,
                b,
            ) by {
                assert(list@[at as int].0 == bucket);
                if lists_bucket(list@, b) && b != bucket {
                    let k = choose|k: int| 0 <= k < list@.len() && (#[trigger] list@[k]).0 == b;
                    let m = if k < at { k } else { k - 1 };
                    assert(before[m].0 == b);
                }
                if lists_bucket(before, b) {
                    let k = choose|k: int| 0 <= k < before.len() && (#[trigger] before[k]).0 == b;
                    let m = if k < at { k } else { k + 1 };
                    assert(list@[m].0 == b);
                }
            }
        }
    }
}

/// The prices at steps of `stride_ms` back from `now_ms`, at most `max_buckets` steps, oldest
/// first. A step without a sample is left out.
pub fn strided_prices(
    window: &RollingWindow<BtcSample>,
    now_ms: u64,
    stride_ms: u64,
    max_buckets: u64,
) -> (r: Vec<Dec>)
    requires
        stride_ms > 0,
        stride_ms * max_buckets <= u64::MAX,
    ensures
        r@ == bucket_prices(
            window@,
            now_ms,
            stride_ms,
            (stride_ms * max_buckets) as u64,
            (max_buckets + 1) as nat,
        ),
{
    let horizon_ms: u64 = stride_ms * max_buckets;
    let samples = window.samples();
    let mut list: Vec<(u64, Dec)> = Vec::new();
    let mut i: usize = 0;
    assert(samples@.take(0) =~= Seq::empty());
    while i < samples.len()
        invariant
            i <= samples@.len(),
            stride_ms > 0,
            horizon_ms == stride_ms * max_buckets,
            oldest_first(list@),
            forall|k: int| 0 <= k < list@.len() ==> (#[trigger] list@[k]).0 <= max_buckets,
            lists_prices(list@, samples@.take(i as int), now_ms, stride_ms, horizon_ms),
        decreases samples@.len() - i,
    {
        let sample = samples[i];
        let ghost before = list@;
        let ghost seen = samples@.take(i as int);
        let ghost now = samples@.take(i + 1);
        assert(now.drop_last() =~= seen);
        assert(now.last() == sample);
        let age_ms: u64 = minus_or_zero(now_ms, sample.timestamp_ms);
        if age_ms <= horizon_ms {
            let bucket: u64 = age_ms / stride_ms;
            assert(bucket <= max_buckets) by (nonlinear_arith)
                requires
                    stride_ms > 0,
                    bucket == age_ms / stride_ms,
                    age_ms <= stride_ms * max_buckets,
            ;
            put_bucket(&mut list, bucket, sample.price);
            proof {
                assert forall|k: int| 0 <= k < list@.len() implies (#[trigger] list@[k]).0
                    <= max_buckets && bucket_price(
                    now,
                    now_ms,
                    stride_ms,
                    horizon_ms,
                    list@[k].0 as int,
                ) == Some(list@[k].1) by {
                    if list@[k] != (bucket, sample.price) {
                        let m = choose|m: int| 0 <= m < before.len() && before[m] == list@[k];
                        assert(before[m].0 <= max_buckets);
                    }
                }
                assert forall|b: int|
                    (#[trigger] bucket_price(now, now_ms, stride_ms, horizon_ms, b)) is Some implies lists_bucket(
                    list@,
                    b,
                ) by {
                    if b != bucket {
                        assert(bucket_price(seen, now_ms, stride_ms, horizon_ms, b) is Some);
                    }
                }
            }
        } else {
            assert forall|b: int| (#[trigger] bucket_price(now, now_ms, stride_ms, horizon_ms, b))
                == bucket_price(seen, now_ms, stride_ms, horizon_ms, b) by {}
        }
        i = i + 1;
    }
    assert(samples@.take(i as int) =~= samples@);
    proof {
        lemma_listed(list@, window@, now_ms, stride_ms, horizon_ms, (max_buckets + 1) as nat);
    }
    let mut out: Vec<Dec> = Vec::new();
    let mut k: usize = 0;
    while k < list.len()
        invariant
            k <= list.len(),
            out@ == listed(list@.take(k as int)),
        decreases list.len() - k,
    {
        out.push(list[k].1);
        proof {
            assert(listed(list@.take(k + 1)) =~= listed(list@.take(k as int)).push(list@[k as int].1));
        }
        k = k + 1;
    }
    assert(list@.take(k as int) =~= list@);
    out
}

/// The quotients that the features are made of.
#[derive(Clone, Copy, Debug, PartialEq, Eq, Structural)]
pub struct FeatureReadings {
    /// The highest and the lowest price of five minutes ([`extremes`]) as doubles.
    pub high: Double,
    pub low: Double,
    /// Where the price is between them.
    pub range_position: Double,
    /// The size of the distance from the origin, divided by the length of the path.
    pub efficiency: Double,
    /// The seconds on the current side, divided by all seconds.
    pub persistence: Double,
    /// The area, divided by all seconds.
    pub avg_distance: Double,
    pub er_1s: Double,
    pub er_5s: Double,
    pub er_10s: Double,
    pub er_30s: Double,
    pub er_full: Double,
    pub volatility_30s: Double,
    pub volatility_60s: Double,
    pub z_score_30: Double,
    pub z_score_60: Double,
    pub z_score_5m: Double,
    pub range_position_30s: Double,
    pub range_position_60s: Double,
    pub range_position_5m: Double,
    pub range_position_10m: Double,
    pub range_position_30m: Double,
    pub range_position_60m: Double,
    pub toward_high: Double,
}

/// One half.
pub open spec fn half() -> Double {
    Double { bits: 0x3fe0_0000_0000_0000 }
}

/// The features of the current window; blank while there is no price. A quotient without a
/// divisor has a value of its own: one half for a position and for the persistence, and zero
/// for the rest. The efficiency is never above one.
pub open spec fn features_spec(
    samples: Seq<BtcSample>,
    ws: WindowState,
    q: FeatureReadings,
) -> BtcFeatures {
    if samples.len() == 0 {
        BtcFeatures::blank()
    } else {
        let zero = Double::zero_spec();
        let current = samples.last().price;
        let (high, low) = extremes_spec(samples, samples.last().timestamp_ms, current);
        BtcFeatures {
            current_price: current,
            origin_price: ws.btc_origin_price,
            distance_from_origin_pct: ws.btc_distance_from_origin_pct,
            efficiency_ratio: if zero.below(ws.btc_path_length) {
                q.efficiency.smaller(Double { bits: 0x3ff0_0000_0000_0000 })
            } else {
                zero
            },
            er_1s: q.er_1s,
            er_5s: q.er_5s,
            er_10s: q.er_10s,
            er_30s: q.er_30s,
            er_full: q.er_full,
            volatility_30s: q.volatility_30s,
            volatility_60s: q.volatility_60s,
            z_score_30: q.z_score_30,
            z_score_60: q.z_score_60,
            z_score_5m: q.z_score_5m,
            acceleration: ws.btc_acceleration,
            momentum_persistence: if zero.below(ws.btc_elapsed_seconds) {
                q.persistence
            } else {
                half()
            },
            avg_distance_from_origin: if zero.below(ws.btc_elapsed_seconds) {
                q.avg_distance
            } else {
                zero
            },
            high_5m: high,
            low_5m: low,
            range_position: if q.low.below(q.high) { q.range_position } else { half() },
            range_position_30s: q.range_position_30s,
            range_position_60s: q.range_position_60s,
            range_position_5m: q.range_position_5m,
            range_position_10m: q.range_position_10m,
            range_position_30m: q.range_position_30m,
            range_position_60m: q.range_position_60m,
            toward_high: q.toward_high,
        }
    }
}

/// The features of the current window.
pub fn features(window: &RollingWindow<BtcSample>, ws: &WindowState, q: &FeatureReadings) -> (r:
    BtcFeatures)
    requires
        samples_wf(window@),
    ensures
        r == features_spec(window@, *ws, *q),
{
    let (now_ms, current) = match window.latest() {
        Some(sample) => (sample.timestamp_ms, sample.price),
        None => return BtcFeatures::default(),
    };
    assert(window@[window@.len() - 1].price.wf());
    let (high, low) = extremes(window, now_ms, current);
    let zero = Double::zero();
    let half = Double { bits: 0x3fe0_0000_0000_0000 };
    BtcFeatures {
        current_price: current,
        origin_price: ws.btc_origin_price,
        distance_from_origin_pct: ws.btc_distance_from_origin_pct,
        efficiency_ratio: if zero.lt(ws.btc_path_length) {
            q.efficiency.min(Double { bits: 0x3ff0_0000_0000_0000 })
        } else {
            zero
        },
        er_1s: q.er_1s,
        er_5s: q.er_5s,
        er_10s: q.er_10s,
        er_30s: q.er_30s,
        er_full: q.er_full,
        volatility_30s: q.volatility_30s,
        volatility_60s: q.volatility_60s,
        z_score_30: q.z_score_30,
        z_score_60: q.z_score_60,
        z_score_5m: q.z_score_5m,
        acceleration: ws.btc_acceleration,
        momentum_persistence: if zero.lt(ws.btc_elapsed_seconds) {
            q.persistence
        } else {
            half
        },
        avg_distance_from_origin: if zero.lt(ws.btc_elapsed_seconds) {
            q.avg_distance
        } else {
            zero
        },
        high_5m: high,
        low_5m: low,
        range_position: if q.low.lt(q.high) {
            q.range_position
        } else {
            half
        },
        range_position_30s: q.range_position_30s,
        range_position_60s: q.range_position_60s,
        range_position_5m: q.range_position_5m,
        range_position_10m: q.range_position_10m,
        range_position_30m: q.range_position_30m,
        range_position_60m: q.range_position_60m,
        toward_high: q.toward_high,
    }
}

/// The last price, for show.
#[derive(Clone, Copy, Debug, PartialEq, Eq)]
pub struct BtcSnapshot {
    pub timestamp_ms: u64,
    pub price: Dec,
    /// What the noise filter said of it; none before the first price.
    pub clean: Option<CleanPrice>,
}

impl BtcSnapshot {
    /// No price yet.
    pub open spec fn blank() -> BtcSnapshot {
        BtcSnapshot { timestamp_ms: 0, price: Dec::zero_spec(), clean: None }
    }
}

impl Default for BtcSnapshot {
    fn default() -> (r: Self)
        ensures
            r == BtcSnapshot::blank(),
    {
        BtcSnapshot { timestamp_ms: 0, price: Dec { mantissa: 0, scale: 0 }, clean: None }
    }
}

/// The history of prices, the state of the window and the last price.
pub struct BtcHistory {
    pub window: RollingWindow<BtcSample>,
    pub window_state: WindowState,
    pub snapshot: BtcSnapshot,
}

impl BtcHistory {
    /// The prices are amounts.
    pub open spec fn wf(self) -> bool {
        samples_wf(self.window@) && self.window_state.wf() && self.window.retention_spec()
            == HISTORY_MS
    }

    /// A history without prices.
    pub fn new() -> (r: Self)
        ensures
            r.wf(),
            r.window@.len() == 0,
            r.window.retention_spec() == 3_600_000,
            r.window_state == WindowState::blank(0),
            r.snapshot == BtcSnapshot::blank(),
    {
        BtcHistory {
            window: RollingWindow::new(HISTORY_MS),
            window_state: WindowState::default(),
            snapshot: BtcSnapshot::default(),
        }
    }

    /// Whether the origin of the window is fixed.
    pub fn btc_origin_locked(&self) -> (r: bool)
        ensures
            r == self.window_state.btc_origin_locked,
    {
        self.window_state.btc_origin_locked
    }

    /// Starts a new window; the history of prices stays.
    pub fn notify_window_start(&mut self, window_started_ms: u64)
        requires
            old(self).wf(),
        ensures
            final(self).wf(),
            final(self).window@ == old(self).window@,
            final(self).window_state == WindowState::blank(window_started_ms),
            final(self).snapshot == old(self).snapshot,
    {
        self.window_state.reset(window_started_ms);
    }

    /// Takes in a cleaned price, whose smoothed value is `price`. The result is false where the
    /// price cannot be added to the origin; the state of the window and the last price are then
    /// as they were.
    pub fn publish_clean(
        &mut self,
        clean: CleanPrice,
        price: Dec,
        received_ms: u64,
        reading: BtcReading,
    ) -> (r: bool)
        requires
            old(self).wf(),
            price.wf(),
        ensures
            final(self).wf(),
            final(self).window@ == storage::pruned(
                old(self).window@.push(BtcSample { timestamp_ms: received_ms, price }),
                storage::minus(received_ms, HISTORY_MS),
            ),
            r == old(self).window_state.countable(price, received_ms),
            r ==> final(self).window_state == old(self).window_state.after_btc(
                price,
                received_ms,
                reading,
            ),
            !r ==> final(self).window_state == old(self).window_state,
            final(self).snapshot == (if r {
                BtcSnapshot { timestamp_ms: received_ms, price, clean: Some(clean) }
            } else {
                old(self).snapshot
            }),
    {
        let ghost before = self.window@;
        let sample = BtcSample { timestamp_ms: received_ms, price };
        self.window.push(sample);
        proof {
            let all = before.push(sample);
            storage::law_pruned_is_a_suffix(all, storage::minus(received_ms, HISTORY_MS));
            let n = all.len() - self.window@.len();
            assert forall|i: int| 0 <= i < self.window@.len() implies (
            #[trigger] self.window@[i]).price.wf() by {
                assert(self.window@[i] == all[n + i]);
                if n + i < before.len() {
                    assert(before[n + i].price.wf());
                }
            }
        }
        let taken = self.window_state.try_ingest_btc(price, received_ms, reading);
        if taken {
            self.snapshot = BtcSnapshot { timestamp_ms: received_ms, price, clean: Some(clean) };
        }
        taken
    }
}

/// The features after a price are those of that price: once it has been taken in and measured
/// against an origin above zero, they show the price, the origin that it was measured against, and
/// the price's own distance from it; the range of five minutes holds the price.
pub proof fn law_features_show_the_last_price(
    samples: Seq<BtcSample>,
    ws: WindowState,
    price: Dec,
    received_ms: u64,
    reading: BtcReading,
    q: FeatureReadings,
)
    requires
        ws.btc_origin_locked || received_ms - ws.window_started_ms > 3_000,
        window_state::measured_against(ws, price).mantissa > 0,
    ensures
        ({
            let kept = storage::pruned(
                samples.push(BtcSample { timestamp_ms: received_ms, price }),
                storage::minus(received_ms, HISTORY_MS),
            );
            let after = ws.after_btc(price, received_ms, reading);
            let f = features_spec(kept, after, q);
            let moved = ws.btc_last_price.mantissa > 0;
            let path = if moved { reading.path_length } else { ws.btc_path_length };
            let passed = !reading.elapsed.nan() && reading.elapsed.rank() > 0;
            &&& f.current_price == price
            &&& f.origin_price == window_state::measured_against(ws, price)
            &&& f.distance_from_origin_pct == reading.distance
            &&& f.acceleration == (if moved { reading.acceleration } else { ws.btc_acceleration })
            &&& !f.high_5m.below(price) && !price.below(f.low_5m)
            &&& path.nan() || path.rank() <= 0 ==> f.efficiency_ratio.bits == 0
            &&& !path.nan() && path.rank() > 0 ==> f.efficiency_ratio.bits == 0x3ff0_0000_0000_0000
                || f.efficiency_ratio == q.efficiency
            &&& !f.efficiency_ratio.nan() && f.efficiency_ratio.rank() <= 0x3ff0_0000_0000_0000
            &&& !q.efficiency.nan() && !path.nan() && path.rank() > 0 ==> f.efficiency_ratio.rank()
                <= q.efficiency.rank()
            &&& passed ==> f.momentum_persistence == q.persistence && f.avg_distance_from_origin
                == q.avg_distance
            &&& !passed ==> f.momentum_persistence.bits == 0x3fe0_0000_0000_0000
                && f.avg_distance_from_origin.bits == 0
        }),
{
    storage::law_pushed_sample_stays(
        samples,
        BtcSample { timestamp_ms: received_ms, price },
        HISTORY_MS,
    );
    let kept = storage::pruned(
        samples.push(BtcSample { timestamp_ms: received_ms, price }),
        storage::minus(received_ms, HISTORY_MS),
    );
    law_range_is_that_of_five_minutes(kept, kept.last().timestamp_ms, price);
    window_state::law_price_is_measured_against_the_origin(ws, price, received_ms, reading);
}

/// While a window gathers its origin the features show the price, and no distance of an earlier
/// price: where the window is new, the origin and the distance are zero.
pub proof fn law_features_of_a_new_window(
    samples: Seq<BtcSample>,
    window_started_ms: u64,
    price: Dec,
    received_ms: u64,
    reading: BtcReading,
    q: FeatureReadings,
)
    requires
        received_ms - window_started_ms <= 3_000,
    ensures
        ({
            let kept = storage::pruned(
                samples.push(BtcSample { timestamp_ms: received_ms, price }),
                storage::minus(received_ms, HISTORY_MS),
            );
            let after = WindowState::blank(window_started_ms).after_btc(price, received_ms, reading);
            let f = features_spec(kept, after, q);
            &&& f.current_price == price
            &&& f.origin_price.mantissa == 0
            &&& f.distance_from_origin_pct.bits == 0
            &&& f.acceleration.bits == 0
            &&& f.efficiency_ratio.bits == 0
            &&& f.momentum_persistence.bits == 0x3fe0_0000_0000_0000
        }),
{
    storage::law_pushed_sample_stays(
        samples,
        BtcSample { timestamp_ms: received_ms, price },
        HISTORY_MS,
    );
}

/// Each measurement over a stretch of time is shown as the feature of that stretch. The position
/// in the range of five minutes is one half where the range has no width. Without a price every
/// feature is zero.
pub proof fn law_features_keep_their_stretches(
    samples: Seq<BtcSample>,
    ws: WindowState,
    q: FeatureReadings,
)
    ensures
        ({
            let f = features_spec(samples, ws, q);
            let width = !q.low.nan() && !q.high.nan() && q.low.rank() < q.high.rank();
            &&& samples.len() > 0 ==> {
                &&& f.current_price == samples[samples.len() - 1].price
                &&& f.er_1s == q.er_1s && f.er_5s == q.er_5s && f.er_10s == q.er_10s && f.er_30s
                    == q.er_30s && f.er_full == q.er_full
                &&& f.volatility_30s == q.volatility_30s && f.volatility_60s == q.volatility_60s
                &&& f.z_score_30 == q.z_score_30 && f.z_score_60 == q.z_score_60 && f.z_score_5m
                    == q.z_score_5m
                &&& f.range_position_30s == q.range_position_30s && f.range_position_60s
                    == q.range_position_60s && f.range_position_5m == q.range_position_5m
                    && f.range_position_10m == q.range_position_10m && f.range_position_30m
                    == q.range_position_30m && f.range_position_60m == q.range_position_60m
                &&& f.toward_high == q.toward_high
                &&& width ==> f.range_position == q.range_position
                &&& !width ==> f.range_position.bits == 0x3fe0_0000_0000_0000
            }
            &&& samples.len() == 0 ==> f.current_price.mantissa == 0 && f.origin_price.mantissa == 0
                && f.distance_from_origin_pct.bits == 0
        }),
{
}

/// The high and the low of the features are the extreme prices of the last five minutes.
pub proof fn law_features_have_the_range_of_five_minutes(
    samples: Seq<BtcSample>,
    ws: WindowState,
    q: FeatureReadings,
)
    requires
        samples.len() > 0,
    ensures
        ({
            let f = features_spec(samples, ws, q);
            let now = samples[samples.len() - 1].timestamp_ms;
            &&& forall|i: int|
                0 <= i < samples.len() && now - (#[trigger] samples[i]).timestamp_ms <= 300_000
                    ==> !f.high_5m.below(samples[i].price) && !samples[i].price.below(f.low_5m)
            &&& exists|i: int|
                0 <= i < samples.len() && now - (#[trigger] samples[i]).timestamp_ms <= 300_000
                    && samples[i].price == f.high_5m
            &&& exists|i: int|
                0 <= i < samples.len() && now - (#[trigger] samples[i]).timestamp_ms <= 300_000
                    && samples[i].price == f.low_5m
        }),
{
    let f = features_spec(samples, ws, q);
    let last = samples[samples.len() - 1];
    let now = last.timestamp_ms;
    let recent = recent_prices(samples, now, RANGE_MS);
    law_range_is_that_of_five_minutes(samples, now, last.price);
    law_recent_prices_are_those_of_the_stretch(samples, now, RANGE_MS);
    assert forall|i: int|
        0 <= i < samples.len() && now - (#[trigger] samples[i]).timestamp_ms <= 300_000 implies !f.high_5m.below(
    samples[i].price) && !samples[i].price.below(f.low_5m) by {
        assert(recent.contains(samples[i].price));
    }
    assert(now - samples[samples.len() - 1].timestamp_ms <= 300_000);
}

/// The recent prices are those of the samples that are not too old, and all of them.
pub proof fn law_recent_prices_are_those_of_the_stretch(samples: Seq<BtcSample>, now_ms: u64, limit_ms: u64)
    ensures
        forall|i: int|
            0 <= i < samples.len() && now_ms - (#[trigger] samples[i]).timestamp_ms <= limit_ms
                ==> recent_prices(samples, now_ms, limit_ms).contains(samples[i].price),
        forall|p: Dec| #[trigger]
            recent_prices(samples, now_ms, limit_ms).contains(p) ==> exists|i: int|
                0 <= i < samples.len() && now_ms - (#[trigger] samples[i]).timestamp_ms <= limit_ms
                    && samples[i].price == p,
    decreases samples.len(),
{
    let recent = recent_prices(samples, now_ms, limit_ms);
    if samples.len() > 0 {
        let rest = samples.drop_last();
        let before = recent_prices(rest, now_ms, limit_ms);
        law_recent_prices_are_those_of_the_stretch(rest, now_ms, limit_ms);
        assert forall|i: int|
            0 <= i < samples.len() && now_ms - (#[trigger] samples[i]).timestamp_ms <= limit_ms implies recent.contains(
        samples[i].price) by {
            if i < rest.len() {
                assert(rest[i] == samples[i]);
                let k = choose|k: int| 0 <= k < before.len() && before[k] == rest[i].price;
                assert(recent[k] == samples[i].price);
            } else {
                assert(recent[before.len() as int] == samples[i].price);
            }
        }
        assert forall|p: Dec| #[trigger] recent.contains(p) implies exists|i: int|
            0 <= i < samples.len() && now_ms - (#[trigger] samples[i]).timestamp_ms <= limit_ms
                && samples[i].price == p by {
            let k = choose|k: int| 0 <= k < recent.len() && recent[k] == p;
            if k < before.len() {
                assert(before.contains(p)) by {
                    assert(before[k] == p);
                }
                let i = choose|i: int|
                    0 <= i < rest.len() && now_ms - (#[trigger] rest[i]).timestamp_ms <= limit_ms
                        && rest[i].price == p;
                assert(samples[i] == rest[i]);
            } else {
                assert(samples[samples.len() - 1].price == p);
            }
        }
    }
}

/// The price of a step back in time is that of the last sample in it: it is none exactly where the
/// step has no sample, and no later sample is in the step.
pub proof fn law_step_has_its_last_price(
    samples: Seq<BtcSample>,
    now_ms: u64,
    stride_ms: u64,
    horizon_ms: u64,
    bucket: int,
)
    requires
        stride_ms > 0,
    ensures
        ({
            let price = bucket_price(samples, now_ms, stride_ms, horizon_ms, bucket);
            let inside = |s: BtcSample|
                {
                    let age = if now_ms >= s.timestamp_ms { now_ms - s.timestamp_ms } else { 0 };
                    age <= horizon_ms && age / stride_ms as int == bucket
                };
            &&& price is None ==> forall|i: int|
                0 <= i < samples.len() ==> !inside(#[trigger] samples[i])
            &&& price is Some ==> exists|i: int|
                0 <= i < samples.len() && inside(#[trigger] samples[i]) && samples[i].price
                    == price->0 && forall|j: int|
                    i < j < samples.len() ==> !inside(#[trigger] samples[j])
        }),
    decreases samples.len(),
{
    if samples.len() > 0 {
        let rest = samples.drop_last();
        let inside = |s: BtcSample|
            {
                let age = if now_ms >= s.timestamp_ms { now_ms - s.timestamp_ms } else { 0 };
                age <= horizon_ms && age / stride_ms as int == bucket
            };
        law_step_has_its_last_price(rest, now_ms, stride_ms, horizon_ms, bucket);
        let price = bucket_price(samples, now_ms, stride_ms, horizon_ms, bucket);
        assert(inside(samples.last()) <==> age(samples.last(), now_ms) <= horizon_ms && age(
            samples.last(),
            now_ms,
        ) / stride_ms == bucket);
        if inside(samples.last()) {
            assert(samples[samples.len() - 1].price == price->0);
        } else if price is Some {
            let i = choose|i: int|
                0 <= i < rest.len() && inside(#[trigger] rest[i]) && rest[i].price == price->0
                    && forall|j: int| i < j < rest.len() ==> !inside(#[trigger] rest[j]);
            assert(samples[i] == rest[i]);
            assert forall|j: int| i < j < samples.len() implies !inside(#[trigger] samples[j]) by {
                if j < rest.len() {
                    assert(samples[j] == rest[j]);
                }
            }
        } else {
            assert forall|i: int| 0 <= i < samples.len() implies !inside(#[trigger] samples[i]) by {
                if i < rest.len() {
                    assert(samples[i] == rest[i]);
                }
            }
        }
    }
}

/// A further level goes to its own exchange, with its own price and amount, behind the others, and
/// to no other exchange.
pub proof fn law_level_goes_to_its_exchange(
    levels: Seq<MergedLevel>,
    level: MergedLevel,
    exchange: Exchange,
)
    ensures
        levels_of(Seq::empty(), exchange).len() == 0,
        level.exchange == exchange ==> levels_of(levels.push(level), exchange) == levels_of(
            levels,
            exchange,
        ).push(Level { price: level.price, amount: level.amount }),
        level.exchange != exchange ==> levels_of(levels.push(level), exchange) == levels_of(
            levels,
            exchange,
        ),
        present(levels, levels.push(level), level.exchange),
        present(levels.push(level), levels, level.exchange),
{
    assert(levels.push(level).drop_last() =~= levels);
}

/// The number of steps back in time that have a price, from number `from` on and below `n`.
pub open spec fn filled_steps(
    samples: Seq<BtcSample>,
    now_ms: u64,
    stride_ms: u64,
    horizon_ms: u64,
    from: int,
    n: nat,
) -> nat
    decreases n,
{
    if n == 0 || n <= from {
        0
    } else {
        filled_steps(samples, now_ms, stride_ms, horizon_ms, from, (n - 1) as nat) + (
        if bucket_price(samples, now_ms, stride_ms, horizon_ms, n - 1) is Some {
            1nat
        } else {
            0nat
        })
    }
}

/// The prices of the steps are listed from the oldest on: each step with a price has it in the
/// list, behind those of all older steps, and the list has no others.
pub proof fn law_steps_are_listed_from_the_oldest(
    samples: Seq<BtcSample>,
    now_ms: u64,
    stride_ms: u64,
    horizon_ms: u64,
    n: nat,
    bucket: int,
)
    requires
        0 <= bucket < n,
    ensures
        ({
            let list = bucket_prices(samples, now_ms, stride_ms, horizon_ms, n);
            let price = bucket_price(samples, now_ms, stride_ms, horizon_ms, bucket);
            let older = filled_steps(samples, now_ms, stride_ms, horizon_ms, bucket + 1, n);
            &&& list.len() == filled_steps(samples, now_ms, stride_ms, horizon_ms, 0, n)
            &&& price is Some ==> older < list.len() && list[older as int] == price->0
        }),
    decreases n,
{
    let list = bucket_prices(samples, now_ms, stride_ms, horizon_ms, n);
    let rest = bucket_prices(samples, now_ms, stride_ms, horizon_ms, (n - 1) as nat);
    if n > 1 {
        law_steps_are_listed_from_the_oldest(
            samples,
            now_ms,
            stride_ms,
            horizon_ms,
            (n - 1) as nat,
            if bucket < n - 1 { bucket } else { 0 },
        );
    } else {
        assert(rest.len() == 0);
        assert(filled_steps(samples, now_ms, stride_ms, horizon_ms, 0, 0) == 0);
    }
    assert(filled_steps(samples, now_ms, stride_ms, horizon_ms, n as int, n) == 0);
}

/// An exchange's levels are the merged ones that come from it: each with its price and amount, and
/// no others.
proof fn lemma_levels_come_from_the_exchange(
    levels: Seq<MergedLevel>,
    exchange: Exchange,
    price: Dec,
    amount: Dec,
)
    ensures
        levels_of(levels, exchange).contains(Level { price, amount }) <==> exists|i: int|
            0 <= i < levels.len() && (#[trigger] levels[i]).exchange == exchange && levels[i].price
                == price && levels[i].amount == amount,
    decreases levels.len(),
{
    let level = Level { price, amount };
    if levels.len() > 0 {
        let front = levels.drop_last();
        lemma_levels_come_from_the_exchange(front, exchange, price, amount);
        let before = levels_of(front, exchange);
        let after = levels_of(levels, exchange);
        let last = levels.last();
        let hit = |l: MergedLevel|
            l.exchange == exchange && l.price == price && l.amount == amount;
        if exists|i: int| 0 <= i < front.len() && hit(#[trigger] front[i]) {
            let i = choose|i: int| 0 <= i < front.len() && hit(#[trigger] front[i]);
            assert(levels[i] == front[i]);
        }
        if exists|i: int| 0 <= i < levels.len() && hit(#[trigger] levels[i]) {
            let i = choose|i: int| 0 <= i < levels.len() && hit(#[trigger] levels[i]);
            if i < front.len() {
                assert(hit(front[i]));
            }
        }
        if last.exchange == exchange {
            assert(after == before.push(Level { price: last.price, amount: last.amount }));
            assert(after.last() == Level { price: last.price, amount: last.amount });
            if before.contains(level) {
                let k = choose|k: int| 0 <= k < before.len() && before[k] == level;
                assert(after[k] == level);
            }
            if after.contains(level) {
                let k = choose|k: int| 0 <= k < after.len() && after[k] == level;
                if k < before.len() {
                    assert(before[k] == level);
                } else {
                    assert(hit(levels[levels.len() - 1]));
                }
            }
            if hit(last) {
                assert(after[before.len() as int] == level);
            }
        }
    }
}

/// An exchange's part of a merged book has the bids of that exchange as its bids and its asks as its
/// asks, each with its own price and amount, and the time at which the book came.
pub proof fn law_part_keeps_bids_and_asks_apart(
    t: ExchangeTick,
    bids: Seq<MergedLevel>,
    asks: Seq<MergedLevel>,
    received_ms: u64,
    price: Dec,
    amount: Dec,
)
    requires
        is_part(t, bids, asks, received_ms),
    ensures
        t.received_ms == received_ms,
        t.bids@.len() > 0 || t.asks@.len() > 0,
        t.bids@.contains(Level { price, amount }) <==> exists|i: int|
            0 <= i < bids.len() && (#[trigger] bids[i]).exchange == t.exchange && bids[i].price
                == price && bids[i].amount == amount,
        t.asks@.contains(Level { price, amount }) <==> exists|i: int|
            0 <= i < asks.len() && (#[trigger] asks[i]).exchange == t.exchange && asks[i].price
                == price && asks[i].amount == amount,
{
    lemma_levels_come_from_the_exchange(bids, t.exchange, price, amount);
    lemma_levels_come_from_the_exchange(asks, t.exchange, price, amount);
}

} // verus!
