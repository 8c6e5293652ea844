use vstd::prelude::*;

verus! {

/// The count after one click event.
pub open spec fn spec_click(c: nat) -> nat {
    c + 1
}

/// The count after `n` click events starting from `c`.
pub open spec fn spec_clicks(c: nat, n: nat) -> nat
    decreases n,
{
    if n == 0 {
        c
    } else {
        spec_click(spec_clicks(c, (n - 1) as nat))
    }
}

/// Each click adds exactly one, so `n` clicks add exactly `n`.
pub proof fn lemma_clicks_add(c: nat, n: nat)
    ensures
        spec_clicks(c, n) == c + n,
    decreases n,
{
    if n > 0 {
        lemma_clicks_add(c, (n - 1) as nat);
    }
}

/// Law: starting from a freshly mounted counter page (count zero), after `n`
/// click events the displayed value equals `n`.
pub proof fn lemma_fresh_counter_counts_clicks(n: nat)
    ensures
        spec_clicks(0, n) == n,
{
    lemma_clicks_add(0, n);
}

/// The click counter owned by one mounted instance of the home page. It is
/// created at zero when the page is mounted, goes up by exactly one per click,
/// and is discarded with the page; no state is shared across instances.
#[derive(Clone, Copy, PartialEq, Eq, Structural, Debug)]
pub struct Counter {
    value: u64,
}

impl Counter {
    /// The displayed count.
    pub closed spec fn count(self) -> nat {
        self.value as nat
    }

    /// A freshly mounted counter starts at zero.
    pub fn new() -> (c: Counter)
        ensures
            c.count() == 0,
    {
        Counter { value: 0 }
    }

    /// The value shown beside the button label.
    pub fn current(&self) -> (v: u64)
        ensures
            v == self.count(),
    {
        self.value
    }

    /// One click event: the count goes up by exactly one.
    pub fn click(&mut self)
        requires
            old(self).count() < u64::MAX,
        ensures
            final(self).count() == spec_click(old(self).count()),
    {
        self.value = self.value + 1;
    }

    /// `n` click events in a row.
    pub fn click_n(&mut self, n: u64)
        requires
            old(self).count() + n <= u64::MAX,
        ensures
            final(self).count() == spec_clicks(old(self).count(), n as nat),
    {
        let mut i: u64 = 0;
        while i < n
            invariant
                i <= n,
                old(self).count() + n <= u64::MAX,
                self.count() == spec_clicks(old(self).count(), i as nat),
                self.count() == old(self).count() + i,
            decreases n - i,
        {
            proof {
                lemma_clicks_add(old(self).count(), (i + 1) as nat);
            }
            self.click();
            i = i + 1;
        }
    }
}

} // verus!
