//! The history of a sampled price: each sample is kept with the instant it
//! was taken, so that the history can be cut to a time window.

use std::time::Instant;
use vstd::prelude::*;

use crate::clock::{instant_now, nanos_between};

verus! {

/// Whether `p` is the position of the first age above `max_age`.
pub open spec fn is_first_older(ages: Seq<u128>, max_age: u128, p: int) -> bool {
    &&& 0 <= p < ages.len()
    &&& ages[p] > max_age
    &&& forall|q: int| 0 <= q < p ==> #[trigger] ages[q] <= max_age
}

/// Where a history whose samples have these ages (in nanoseconds) is cut
/// when it is trimmed to `max_age`: everything before the first sample that
/// is older than `max_age` is dropped, and nothing when there is none.
pub fn trim_start(ages: &Vec<u128>, max_age: u128) -> (start: usize)
    ensures
        start <= ages@.len(),
        ages@.len() > 0 ==> start < ages@.len(),
        (forall|i: int| 0 <= i < ages@.len() ==> #[trigger] ages@[i] <= max_age) ==> start == 0,
        forall|p: int| is_first_older(ages@, max_age, p) ==> start == p,
{
    let n = ages.len();
    let mut i: usize = 0;
    while i < n
        invariant
            i <= n,
            n == ages@.len(),
            forall|q: int| 0 <= q < i ==> #[trigger] ages@[q] <= max_age,
        decreases n - i,
    {
        if ages[i] > max_age {
            assert forall|p: int| is_first_older(ages@, max_age, p) implies i == p by {
                if p < i {
                    assert(ages@[p] <= max_age);
                }
                if p > i {
                    assert(ages@[i as int] <= max_age);
                }
            }
            return i;
        }
        i = i + 1;
    }
    0
}

/// When the ages do not increase along the history (the oldest sample
/// comes first, as samples are added), trimming drops nothing: the first
/// sample older than the bound, if any, is the first sample.
pub proof fn law_trim_keeps_chronological_history(ages: Seq<u128>, max_age: u128, p: int)
    requires
        forall|i: int, j: int| 0 <= i <= j < ages.len() ==> #[trigger] ages[i] >= #[trigger] ages[j],
        is_first_older(ages, max_age, p),
    ensures
        p == 0,
{
    if p > 0 {
        assert(ages[0] >= ages[p]);
        assert(ages[0] <= max_age);
    }
}

/// The first position of the most recent run of samples younger than
/// `max_age`: every sample from there on is younger, and the one just
/// before (if any) is not.
pub fn window_start(ages: &Vec<u128>, max_age: u128) -> (start: usize)
    ensures
        start <= ages@.len(),
        forall|i: int| start <= i < ages@.len() ==> #[trigger] ages@[i] < max_age,
        start > 0 ==> ages@[start - 1] >= max_age,
{
    let mut i: usize = ages.len();
    while i > 0 && ages[i - 1] < max_age
        invariant
            i <= ages@.len(),
            forall|j: int| i <= j < ages@.len() ==> #[trigger] ages@[j] < max_age,
        decreases i,
    {
        i = i - 1;
    }
    i
}

/// Samples of a value with the instants at which they were taken, oldest
/// first.
pub struct PriceHistory<T> {
    samples: Vec<(Instant, T)>,
}

impl<T> PriceHistory<T> {
    /// The sampled values, oldest first.
    pub closed spec fn values(&self) -> Seq<T> {
        self.samples@.map_values(|s: (Instant, T)| s.1)
    }

    /// An empty history.
    pub fn new() -> (history: Self)
        ensures
            history.values() == Seq::<T>::empty(),
    {
        let history = PriceHistory { samples: Vec::new() };
        assert(history.values() =~= Seq::<T>::empty());
        history
    }

    /// Records a sample taken now.
    pub fn add(&mut self, value: T)
        ensures
            final(self).values() == old(self).values().push(value),
    {
        let now = instant_now();
        self.samples.push((now, value));
        assert(self.values() =~= old(self).values().push(value));
    }

    /// The ages, in nanoseconds at `now`, of the samples.
    fn ages(&self, now: &Instant) -> (ages: Vec<u128>)
        ensures
            ages@.len() == self.samples@.len(),
    {
        let n = self.samples.len();
        let mut ages: Vec<u128> = Vec::new();
        let mut i: usize = 0;
        while i < n
            invariant
                i <= n,
                n == self.samples@.len(),
                ages@.len() == i,
            decreases n - i,
        {
            ages.push(nanos_between(now, &self.samples[i].0));
            i = i + 1;
        }
        ages
    }

    /// Trims the history to `max_age` nanoseconds as `trim_start` decides
    /// on the ages of the samples now. Which samples go depends on the
    /// clock; what is promised is that only a proper prefix goes, so a
    /// history that held a sample still holds its most recent one.
    pub fn trim(&mut self, max_age: u128)
        ensures
            exists|k: int|
                #![trigger old(self).values().skip(k)]
                0 <= k <= old(self).values().len()
                    && (old(self).values().len() > 0 ==> k < old(self).values().len())
                    && final(self).values() == old(self).values().skip(k),
            old(self).values().len() > 0 ==> final(self).values().len() > 0,
            old(self).values().len() > 0 ==> final(self).values().last() == old(self).values().last(),
    {
        let now = instant_now();
        let ages = self.ages(&now);
        let start = trim_start(&ages, max_age);
        if start > 0 {
            let kept = self.samples.split_off(start);
            self.samples = kept;
        }
        assert(self.values() =~= old(self).values().skip(start as int));
    }

    /// The position from which the samples are younger than `max_age`
    /// nanoseconds now, as `window_start` decides on their ages.
    pub fn window(&self, max_age: u128) -> (start: usize)
        ensures
            start <= self.values().len(),
    {
        let now = instant_now();
        let ages = self.ages(&now);
        window_start(&ages, max_age)
    }

    /// The samples, oldest first, with the instants they were taken.
    pub fn samples(&self) -> (samples: &Vec<(Instant, T)>)
        ensures
            samples@.map_values(|s: (Instant, T)| s.1) == self.values(),
    {
        &self.samples
    }

    /// The most recent sample.
    pub fn last(&self) -> (last: Option<&T>)
        ensures
            match last {
                None => self.values().len() == 0,
                Some(v) => self.values().len() > 0 && *v == self.values().last(),
            },
    {
        let n = self.samples.len();
        if n == 0 {
            None
        } else {
            Some(&self.samples[n - 1].1)
        }
    }
}

} // verus!
