//! What the strategies said, by window.

use vstd::prelude::*;
use dashmap::DashMap;
use crate::prediction::features::BtcFeatures;
use crate::prediction::signals::PredictionSignal;
use crate::prediction::storage;
use crate::prediction::storage::minus_or_zero;
use crate::tables;

verus! {

/// The age in milliseconds from which on a window's signals are stale.
pub const MAX_SIGNAL_AGE_MS: u64 = 30_000;

/// What the strategies said in one window.
#[derive(Debug)]
pub struct PredictionState {
    /// One signal per strategy; none where they were cleared or never came.
    pub signals: Vec<PredictionSignal>,
    pub last_updated_ms: u64,
    pub btc: Option<BtcFeatures>,
}

/// The mathematical value of a [`PredictionState`].
#[verifier::ext_equal]
pub struct PredictionView {
    pub signals: Seq<PredictionSignal>,
    pub last_updated_ms: u64,
    pub btc: Option<BtcFeatures>,
}

impl View for PredictionState {
    type V = PredictionView;

    open spec fn view(&self) -> PredictionView {
        PredictionView {
            signals: self.signals@,
            last_updated_ms: self.last_updated_ms,
            btc: self.btc,
        }
    }
}

impl Clone for PredictionState {
    fn clone(&self) -> (r: Self)
        ensures
            r@ == self@,
    {
        let mut signals: Vec<PredictionSignal> = Vec::new();
        let mut i: usize = 0;
        while i < self.signals.len()
            invariant
                i <= self.signals.len(),
                signals@ == self.signals@.take(i as int),
            decreases self.signals.len() - i,
        {
            signals.push(self.signals[i]);
            assert(signals@ =~= self.signals@.take(i + 1));
            i = i + 1;
        }
        assert(signals@ =~= self.signals@);
        PredictionState { signals, last_updated_ms: self.last_updated_ms, btc: self.btc }
    }
}

impl PredictionView {
    /// A window without signals.
    pub open spec fn blank(now_ms: u64, btc: Option<BtcFeatures>) -> PredictionView {
        PredictionView { signals: Seq::empty(), last_updated_ms: now_ms, btc }
    }

    /// The window without its signals.
    pub open spec fn cleared(self, now_ms: u64) -> PredictionView {
        PredictionView { signals: Seq::empty(), last_updated_ms: now_ms, ..self }
    }

    /// Whether the window has not been updated for too long.
    pub open spec fn is_stale(self, now_ms: u64) -> bool {
        storage::minus(now_ms, self.last_updated_ms) > MAX_SIGNAL_AGE_MS
    }
}

pub struct PredictionStore {
    pub signals: DashMap<u64, PredictionState>,
}

impl View for PredictionStore {
    type V = Map<u64, PredictionView>;

    open spec fn view(&self) -> Map<u64, PredictionView> {
        tables::predictions_in(self.signals)
    }
}

/// The store once every stale window has been cleared.
pub open spec fn evicted(m: Map<u64, PredictionView>, now_ms: u64) -> Map<u64, PredictionView> {
    m.map_values(|v: PredictionView| if v.is_stale(now_ms) { v.cleared(now_ms) } else { v })
}

impl PredictionStore {
    /// An empty store.
    pub fn new() -> (r: Self)
        ensures
            r@ == Map::<u64, PredictionView>::empty(),
    {
        PredictionStore { signals: tables::new_predictions() }
    }

    /// What the strategies said in a window.
    pub fn get(&self, window_ts: u64) -> (r: Option<PredictionState>)
        ensures
            r is Some <==> self@.contains_key(window_ts),
            r is Some ==> r->0@ == self@[window_ts],
    {
        tables::get_prediction(&self.signals, window_ts)
    }

    /// Replaces all signals of a window.
    pub fn update_signals(
        &mut self,
        window_ts: u64,
        signals: Vec<PredictionSignal>,
        btc: BtcFeatures,
        now_ms: u64,
    )
        ensures
            final(self)@ == old(self)@.insert(
                window_ts,
                PredictionView { signals: signals@, last_updated_ms: now_ms, btc: Some(btc) },
            ),
    {
        tables::insert_prediction(
            &mut self.signals,
            window_ts,
            PredictionState { signals, last_updated_ms: now_ms, btc: Some(btc) },
        );
    }

    /// Replaces the features of a window, and leaves its signals.
    pub fn update_btc(&mut self, window_ts: u64, btc: BtcFeatures, now_ms: u64)
        ensures
            final(self)@ == old(self)@.insert(
                window_ts,
                if old(self)@.contains_key(window_ts) {
                    PredictionView {
                        btc: Some(btc),
                        last_updated_ms: now_ms,
                        ..old(self)@[window_ts]
                    }
                } else {
                    PredictionView::blank(now_ms, Some(btc))
                },
            ),
    {
        let next = match tables::get_prediction(&self.signals, window_ts) {
            Some(s) => PredictionState {
                signals: s.signals,
                last_updated_ms: now_ms,
                btc: Some(btc),
            },
            None => PredictionState {
                signals: Vec::new(),
                last_updated_ms: now_ms,
                btc: Some(btc),
            },
        };
        tables::insert_prediction(&mut self.signals, window_ts, next);
    }

    /// Removes the signals of a window, and leaves its features.
    pub fn clear_signals(&mut self, window_ts: u64, now_ms: u64)
        ensures
            final(self)@ == old(self)@.insert(
                window_ts,
                if old(self)@.contains_key(window_ts) {
                    old(self)@[window_ts].cleared(now_ms)
                } else {
                    PredictionView::blank(now_ms, None)
                },
            ),
    {
        let btc = match tables::get_prediction(&self.signals, window_ts) {
            Some(s) => s.btc,
            None => None,
        };
        tables::insert_prediction(
            &mut self.signals,
            window_ts,
            PredictionState { signals: Vec::new(), last_updated_ms: now_ms, btc },
        );
    }

    /// Removes the signals of every window that has not been updated for too long.
    pub fn evict_stale(&mut self, now_ms: u64)
        ensures
            final(self)@ == evicted(old(self)@, now_ms),
    {
        let keys = tables::prediction_keys(&self.signals);
        let ghost before = self@;
        let mut i: usize = 0;
        while i < keys.len()
            invariant
                i <= keys.len(),
                keys@.no_duplicates(),
                forall|k: u64| #[trigger] keys@.contains(k) <==> before.contains_key(k),
                self@.dom() == before.dom(),
                forall|k: int|
                    0 <= k < i ==> self@[#[trigger] keys@[k]] == evicted(before, now_ms)[keys@[k]],
                forall|k: int| i <= k < keys.len() ==> self@[#[trigger] keys@[k]] == before[keys@[k]],
            decreases keys.len() - i,
        {
            let key: u64 = keys[i];
            let ghost at = self@;
            proof {
                assert(keys@.contains(key));
                assert(before.dom().contains(key));
                assert(at.dom().contains(key));
            }
            let stale = match tables::get_prediction(&self.signals, key) {
                Some(s) => minus_or_zero(now_ms, s.last_updated_ms) > MAX_SIGNAL_AGE_MS,
                None => false,
            };
            if stale {
                self.clear_signals(key, now_ms);
            }
            proof {
                assert(self@.dom() =~= before.dom());
                assert forall|k: int| 0 <= k < keys.len() && k != i implies self@[
                    #[trigger] keys@[k]] == at[keys@[k]] by {
                    assert(keys@[k] != keys@[i as int]);
                }
            }
            i = i + 1;
        }
        proof {
            assert forall|k: u64| #[trigger] before.contains_key(k) implies self@[k] == evicted(
                before,
                now_ms,
            )[k] by {
                assert(keys@.contains(k));
                let j = choose|j: int| 0 <= j < keys@.len() && keys@[j] == k;
                assert(self@[keys@[j]] == evicted(before, now_ms)[keys@[j]]);
            }
            assert(self@.dom() =~= evicted(before, now_ms).dom());
            assert(self@ =~= evicted(before, now_ms));
        }
    }
}

impl Default for PredictionStore {
    fn default() -> (r: Self)
        ensures
            r@ == Map::<u64, PredictionView>::empty(),
    {
        PredictionStore::new()
    }
}

/// Clearing what is stale leaves nothing stale, and leaves every fresh window as it was.
pub proof fn law_eviction_is_thorough(m: Map<u64, PredictionView>, now_ms: u64, window_ts: u64)
    requires
        m.contains_key(window_ts),
    ensures
        evicted(m, now_ms).contains_key(window_ts),
        !evicted(m, now_ms)[window_ts].is_stale(now_ms),
        !m[window_ts].is_stale(now_ms) ==> evicted(m, now_ms)[window_ts] == m[window_ts],
        evicted(m, now_ms)[window_ts].btc == m[window_ts].btc,
{
}

/// What is older than thirty seconds loses its signals and keeps its features, and counts as
/// updated; everything else is as it was.
pub proof fn law_signals_live_for_thirty_seconds(
    m: Map<u64, PredictionView>,
    now_ms: u64,
    window_ts: u64,
)
    ensures
        ({
            let after = evicted(m, now_ms);
            let old = now_ms - m[window_ts].last_updated_ms > 30_000;
            &&& after.contains_key(window_ts) <==> m.contains_key(window_ts)
            &&& m.contains_key(window_ts) && old ==> after[window_ts].signals.len() == 0
                && after[window_ts].last_updated_ms == now_ms && after[window_ts].btc
                == m[window_ts].btc
            &&& m.contains_key(window_ts) && !old ==> after[window_ts] == m[window_ts]
        }),
{
}

/// A window without signals has none, the time of its change, and the features that it had.
pub proof fn law_cleared_window_keeps_its_features(
    v: PredictionView,
    now_ms: u64,
    btc: Option<BtcFeatures>,
)
    ensures
        v.cleared(now_ms).signals.len() == 0,
        v.cleared(now_ms).last_updated_ms == now_ms,
        v.cleared(now_ms).btc == v.btc,
        PredictionView::blank(now_ms, btc).signals.len() == 0,
        PredictionView::blank(now_ms, btc).last_updated_ms == now_ms,
        PredictionView::blank(now_ms, btc).btc == btc,
{
}

} // verus!
