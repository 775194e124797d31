use vstd::prelude::*;

verus! {

/// One step of the external filter: long-open allowed, long must stop,
/// short-open allowed, short must stop.
pub type FilterElement = (Option<bool>, Option<bool>, Option<bool>, Option<bool>);

/// Four time-aligned flag sequences that gate or force the open and stop
/// transitions of a signal generator.
#[derive(Clone, Debug)]
pub struct StrategyFilter {
    pub long_open: Vec<Option<bool>>,
    pub long_stop: Vec<Option<bool>>,
    pub short_open: Vec<Option<bool>>,
    pub short_stop: Vec<Option<bool>>,
}

pub open spec fn min_len(a: nat, b: nat) -> nat {
    if a < b {
        a
    } else {
        b
    }
}

impl StrategyFilter {
    /// Number of steps that all four sequences cover.
    pub open spec fn steps(&self) -> nat {
        min_len(
            min_len(self.long_open@.len(), self.long_stop@.len()),
            min_len(self.short_open@.len(), self.short_stop@.len()),
        )
    }

    /// The filter element of step `i`.
    pub open spec fn element(&self, i: int) -> FilterElement {
        (self.long_open@[i], self.long_stop@[i], self.short_open@[i], self.short_stop@[i])
    }

    /// The filter elements, one per step that all four sequences cover.
    pub fn titer(&self) -> (r: Vec<FilterElement>)
        ensures
            r@.len() == self.steps(),
            forall|i: int| 0 <= i < r@.len() ==> r@[i] == self.element(i),
    {
        let n = if self.long_open.len() < self.long_stop.len() {
            self.long_open.len()
        } else {
            self.long_stop.len()
        };
        let n = if self.short_open.len() < n {
            self.short_open.len()
        } else {
            n
        };
        let n = if self.short_stop.len() < n {
            self.short_stop.len()
        } else {
            n
        };
        let mut out: Vec<FilterElement> = Vec::new();
        let mut i: usize = 0;
        while i < n
            invariant
                n == self.steps(),
                0 <= i <= n,
                out@.len() == i,
                forall|j: int| 0 <= j < i ==> out@[j] == self.element(j),
            decreases n - i,
        {
            out.push((self.long_open[i], self.long_stop[i], self.short_open[i], self.short_stop[i]));
            i = i + 1;
        }
        out
    }

    /// The filter elements, as `titer`.
    pub fn to_iter(&self) -> (r: Vec<FilterElement>)
        ensures
            r@.len() == self.steps(),
            forall|i: int| 0 <= i < r@.len() ==> r@[i] == self.element(i),
    {
        self.titer()
    }
}

} // verus!
