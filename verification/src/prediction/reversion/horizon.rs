//! The stretches of time that a prediction is made for.

use vstd::prelude::*;

verus! {

#[derive(Clone, Copy, Debug, PartialEq, Eq, Hash, PartialOrd, Ord, Structural)]
pub enum Horizon {
    S5,
    S10,
    S30,
    M1,
    M5,
}

impl Horizon {
    /// The length in seconds.
    pub open spec fn secs(self) -> u64 {
        match self {
            Horizon::S5 => 5,
            Horizon::S10 => 10,
            Horizon::S30 => 30,
            Horizon::M1 => 60,
            Horizon::M5 => 300,
        }
    }

    /// The length in seconds.
    pub fn seconds(self) -> (r: u64)
        ensures
            r == self.secs(),
    {
        match self {
            Horizon::S5 => 5,
            Horizon::S10 => 10,
            Horizon::S30 => 30,
            Horizon::M1 => 60,
            Horizon::M5 => 300,
        }
    }

    /// All horizons, shortest first.
    pub open spec fn all_spec() -> Seq<Horizon> {
        seq![Horizon::S5, Horizon::S10, Horizon::S30, Horizon::M1, Horizon::M5]
    }

    /// All horizons, shortest first.
    pub fn all() -> (r: [Horizon; 5])
        ensures
            r@ == Horizon::all_spec(),
    {
        let r = [Horizon::S5, Horizon::S10, Horizon::S30, Horizon::M1, Horizon::M5];
        assert(r@ =~= Horizon::all_spec());
        r
    }

    /// The length in words.
    pub open spec fn label_spec(self) -> Seq<char> {
        match self {
            Horizon::S5 => "5s"@,
            Horizon::S10 => "10s"@,
            Horizon::S30 => "30s"@,
            Horizon::M1 => "1m"@,
            Horizon::M5 => "5m"@,
        }
    }

    /// The length in words.
    pub fn label(self) -> (r: &'static str)
        ensures
            r@ == self.label_spec(),
    {
        match self {
            Horizon::S5 => "5s",
            Horizon::S10 => "10s",
            Horizon::S30 => "30s",
            Horizon::M1 => "1m",
            Horizon::M5 => "5m",
        }
    }
}

/// Every horizon is listed once, and each is longer than the one before it.
pub proof fn law_horizons_ascend(i: int, j: int, h: Horizon)
    requires
        0 <= i < j < Horizon::all_spec().len(),
    ensures
        Horizon::all_spec()[i].secs() < Horizon::all_spec()[j].secs(),
        Horizon::all_spec().contains(h),
{
    assert(Horizon::all_spec()[0] == Horizon::S5);
    assert(Horizon::all_spec()[1] == Horizon::S10);
    assert(Horizon::all_spec()[2] == Horizon::S30);
    assert(Horizon::all_spec()[3] == Horizon::M1);
    assert(Horizon::all_spec()[4] == Horizon::M5);
}

/// A value for each horizon that has one.
#[derive(Clone, Copy, Debug, PartialEq, Eq)]
pub struct HorizonTable<T: Copy> {
    pub s5: Option<T>,
    pub s10: Option<T>,
    pub s30: Option<T>,
    pub m1: Option<T>,
    pub m5: Option<T>,
}

impl<T: Copy> HorizonTable<T> {
    /// The value of a horizon.
    pub open spec fn at(self, horizon: Horizon) -> Option<T> {
        match horizon {
            Horizon::S5 => self.s5,
            Horizon::S10 => self.s10,
            Horizon::S30 => self.s30,
            Horizon::M1 => self.m1,
            Horizon::M5 => self.m5,
        }
    }

    /// The table without any value.
    pub open spec fn none() -> HorizonTable<T> {
        HorizonTable { s5: None, s10: None, s30: None, m1: None, m5: None }
    }

    /// A table without any value.
    pub fn new() -> (r: Self)
        ensures
            r == HorizonTable::<T>::none(),
    {
        HorizonTable { s5: None, s10: None, s30: None, m1: None, m5: None }
    }

    /// The value of a horizon.
    pub fn get(&self, horizon: Horizon) -> (r: Option<T>)
        ensures
            r == self.at(horizon),
    {
        match horizon {
            Horizon::S5 => self.s5,
            Horizon::S10 => self.s10,
            Horizon::S30 => self.s30,
            Horizon::M1 => self.m1,
            Horizon::M5 => self.m5,
        }
    }

    /// Sets the value of a horizon.
    pub fn set(&mut self, horizon: Horizon, value: T)
        ensures
            final(self).at(horizon) == Some(value),
            forall|other: Horizon|
                other != horizon ==> #[trigger] final(self).at(other) == old(self).at(other),
    {
        match horizon {
            Horizon::S5 => {
                self.s5 = Some(value);
            },
            Horizon::S10 => {
                self.s10 = Some(value);
            },
            Horizon::S30 => {
                self.s30 = Some(value);
            },
            Horizon::M1 => {
                self.m1 = Some(value);
            },
            Horizon::M5 => {
                self.m5 = Some(value);
            },
        }
    }
}

/// The horizons are five, ten and thirty seconds, one minute and five minutes, and are called so.
pub proof fn law_horizons_are_called_by_their_length(h: Horizon)
    ensures
        h is S5 ==> h.secs() == 5 && h.label_spec() == "5s"@,
        h is S10 ==> h.secs() == 10 && h.label_spec() == "10s"@,
        h is S30 ==> h.secs() == 30 && h.label_spec() == "30s"@,
        h is M1 ==> h.secs() == 60 && h.label_spec() == "1m"@,
        h is M5 ==> h.secs() == 300 && h.label_spec() == "5m"@,
{
}

} // verus!
