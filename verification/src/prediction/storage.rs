//! Samples over a rolling stretch of time.

use vstd::prelude::*;
use std::collections::vec_deque::Iter;
use std::collections::VecDeque;

verus! {

/// What happened at a known time.
pub trait Timestamped {
    /// The time in milliseconds.
    spec fn time(&self) -> u64;

    /// The time in milliseconds.
    fn timestamp_ms(&self) -> (r: u64)
        ensures
            r == self.time(),
    ;
}

/// `a - b`, and zero where that would be negative.
pub open spec fn minus(a: u64, b: u64) -> u64 {
    if a >= b { (a - b) as u64 } else { 0 }
}

/// `a - b`, and zero where that would be negative.
pub fn minus_or_zero(a: u64, b: u64) -> (r: u64)
    ensures
        r == minus(a, b),
{
    if a >= b {
        a - b
    } else {
        0
    }
}

/// A list without its longest beginning of samples from before `cutoff`.
pub open spec fn pruned<T: Timestamped>(samples: Seq<T>, cutoff: u64) -> Seq<T>
    decreases samples.len(),
{
    if samples.len() > 0 && samples[0].time() < cutoff {
        pruned(samples.skip(1), cutoff)
    } else {
        samples
    }
}

/// Whether the samples are in the order of their times.
pub open spec fn in_order<T: Timestamped>(samples: Seq<T>) -> bool {
    forall|i: int, j: int|
        0 <= i < j < samples.len() ==> (#[trigger] samples[i]).time() <= (#[trigger] samples[j]).time()
}

/// The samples of the last `retention` milliseconds, oldest first.
pub struct RollingWindow<T: Timestamped> {
    retention: u64,
    samples: VecDeque<T>,
}

impl<T: Timestamped> View for RollingWindow<T> {
    type V = Seq<T>;

    closed spec fn view(&self) -> Seq<T> {
        self.samples@
    }
}

impl<T: Timestamped> RollingWindow<T> {
    /// How long a sample is kept, in milliseconds.
    pub closed spec fn retention_spec(&self) -> u64 {
        self.retention
    }

    /// An empty window that keeps samples for `retention` milliseconds.
    pub fn new(retention: u64) -> (r: Self)
        ensures
            r@ == Seq::<T>::empty(),
            r.retention_spec() == retention,
    {
        RollingWindow { retention, samples: VecDeque::new() }
    }

    /// Adds a sample, and drops from the front those that are too old by its time.
    pub fn push(&mut self, sample: T)
        ensures
            final(self).retention_spec() == old(self).retention_spec(),
            final(self)@ == pruned(
                old(self)@.push(sample),
                minus(sample.time(), old(self).retention_spec()),
            ),
    {
        let ts: u64 = sample.timestamp_ms();
        self.samples.push_back(sample);
        self.retain_recent(ts);
    }

    /// Drops from the front the samples that are too old at the time `now_ms`.
    pub fn retain_recent(&mut self, now_ms: u64)
        ensures
            final(self).retention_spec() == old(self).retention_spec(),
            final(self)@ == pruned(old(self)@, minus(now_ms, old(self).retention_spec())),
    {
        let cutoff: u64 = minus_or_zero(now_ms, self.retention);
        while self.samples.len() > 0 && self.samples[0].timestamp_ms() < cutoff
            invariant
                self.retention == old(self).retention,
                cutoff == minus(now_ms, old(self).retention),
                pruned(self.samples@, cutoff) == pruned(old(self).samples@, cutoff),
            decreases self.samples@.len(),
        {
            let ghost before = self.samples@;
            self.samples.pop_front();
            assert(self.samples@ =~= before.skip(1));
        }
    }

    /// Drops all samples.
    pub fn clear(&mut self)
        ensures
            final(self)@ == Seq::<T>::empty(),
            final(self).retention_spec() == old(self).retention_spec(),
    {
        self.samples.clear();
    }

    /// The number of samples.
    pub fn len(&self) -> (r: usize)
        ensures
            r == self@.len(),
    {
        self.samples.len()
    }

    /// Whether there is no sample.
    pub fn is_empty(&self) -> (r: bool)
        ensures
            r == (self@.len() == 0),
    {
        self.samples.len() == 0
    }

    /// The sample that was added last.
    pub fn latest(&self) -> (r: Option<&T>)
        ensures
            r == (if self@.len() == 0 { None } else { Some(&self@[self@.len() - 1]) }),
    {
        let n: usize = self.samples.len();
        if n == 0 {
            None
        } else {
            Some(&self.samples[n - 1])
        }
    }

    /// The sample that was added first.
    pub fn oldest(&self) -> (r: Option<&T>)
        ensures
            r == (if self@.len() == 0 { None } else { Some(&self@[0]) }),
    {
        if self.samples.len() == 0 {
            None
        } else {
            Some(&self.samples[0])
        }
    }

    /// The samples, oldest first.
    pub fn iter(&self) -> (r: Iter<'_, T>)
        ensures
            vstd::std_specs::iter::IteratorSpec::remaining(&r) == self@.as_ref(),
    {
        self.samples.iter()
    }

    /// The samples, oldest first.
    pub fn samples(&self) -> (r: &VecDeque<T>)
        ensures
            r@ == self@,
    {
        &self.samples
    }

    /// How long a sample is kept, in milliseconds.
    pub fn retention(&self) -> (r: u64)
        ensures
            r == self.retention_spec(),
    {
        self.retention
    }
}

/// What is left of a list is an end of it, and begins with a sample that is recent enough.
pub proof fn law_pruned_is_a_suffix<T: Timestamped>(samples: Seq<T>, cutoff: u64)
    ensures
        pruned(samples, cutoff).len() <= samples.len(),
        pruned(samples, cutoff) == samples.skip(samples.len() - pruned(samples, cutoff).len()),
        pruned(samples, cutoff).len() > 0 ==> pruned(samples, cutoff)[0].time() >= cutoff,
        forall|i: int|
            0 <= i < samples.len() - pruned(samples, cutoff).len() ==> (
            #[trigger] samples[i]).time() < cutoff,
    decreases samples.len(),
{
    if samples.len() > 0 && samples[0].time() < cutoff {
        law_pruned_is_a_suffix(samples.skip(1), cutoff);
        let rest = pruned(samples, cutoff);
        let n = samples.len() - rest.len();
        assert(samples.skip(1).skip(n - 1) =~= samples.skip(n));
        assert forall|i: int| 0 <= i < n implies (#[trigger] samples[i]).time() < cutoff by {
            if i > 0 {
                assert(samples.skip(1)[i - 1] == samples[i]);
            }
        }
    } else {
        assert(samples.skip(0) =~= samples);
    }
}

/// Of samples in the order of their times exactly the recent ones are kept.
pub proof fn law_pruned_keeps_the_recent<T: Timestamped>(samples: Seq<T>, cutoff: u64)
    requires
        in_order(samples),
    ensures
        in_order(pruned(samples, cutoff)),
        forall|i: int|
            0 <= i < pruned(samples, cutoff).len() ==> (#[trigger] pruned(
                samples,
                cutoff,
            )[i]).time() >= cutoff,
        forall|i: int|
            0 <= i < samples.len() && (#[trigger] samples[i]).time() >= cutoff ==> pruned(
                samples,
                cutoff,
            ).contains(samples[i]),
{
    law_pruned_is_a_suffix(samples, cutoff);
    let rest = pruned(samples, cutoff);
    let n = samples.len() - rest.len();
    assert forall|i: int| 0 <= i < rest.len() implies (#[trigger] rest[i]).time() >= cutoff by {
        assert(rest[i] == samples[n + i]);
        assert(rest[0] == samples[n]);
        if i > 0 {
            assert(samples[n].time() <= samples[n + i].time());
        }
    }
    assert forall|i: int, j: int| 0 <= i < j < rest.len() implies (#[trigger] rest[i]).time() <= (
    #[trigger] rest[j]).time() by {
        assert(rest[i] == samples[n + i]);
        assert(rest[j] == samples[n + j]);
    }
    assert forall|i: int| 0 <= i < samples.len() && (#[trigger] samples[i]).time() >= cutoff implies rest.contains(
    samples[i]) by {
        assert(i >= n);
        assert(rest[i - n] == samples[i]);
    }
}

/// The newest sample is never dropped by its own arrival.
pub proof fn law_pushed_sample_stays<T: Timestamped>(samples: Seq<T>, sample: T, retention: u64)
    ensures
        ({
            let after = pruned(samples.push(sample), minus(sample.time(), retention));
            after.len() > 0 && after[after.len() - 1] == sample
        }),
{
    let all = samples.push(sample);
    let cutoff = minus(sample.time(), retention);
    law_pruned_is_a_suffix(all, cutoff);
    let after = pruned(all, cutoff);
    if after.len() == 0 {
        assert(all[all.len() - 1].time() < cutoff);
    }
    assert(after[after.len() - 1] == all[all.len() - 1]);
}

/// A difference that is not negative adds up again, and any other is zero.
pub proof fn law_difference_adds_up(a: u64, b: u64)
    ensures
        b <= a ==> minus(a, b) + b == a,
        b > a ==> minus(a, b) == 0,
{
}

} // verus!
