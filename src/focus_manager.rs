//! Cyclic keyboard-focus index over a fixed number of positions.
use vstd::prelude::*;

verus! {

use vstd::arithmetic::div_mod::{lemma_mod_add_multiples_vanish, lemma_mod_self_0, lemma_small_mod};

/// Which of `component_count` positions currently owns keyboard input.
pub struct FocusManager {
    focus_index: usize,
    component_count: usize,
}

impl FocusManager {
    /// The index is always a valid position.
    pub closed spec fn wf(&self) -> bool {
        0 <= self.focus_index < self.component_count
    }

    pub closed spec fn index(&self) -> int {
        self.focus_index as int
    }

    pub closed spec fn count(&self) -> int {
        self.component_count as int
    }

    pub fn new(component_count: usize) -> (r: Self)
        requires
            component_count > 0,
        ensures
            r.wf(),
            r.index() == 0,
            r.count() == component_count,
    {
        Self { focus_index: 0, component_count }
    }

    /// Moves one position forward, wrapping from the last to the first.
    pub fn next(&mut self)
        requires
            old(self).wf(),
        ensures
            final(self).wf(),
            final(self).count() == old(self).count(),
            final(self).index() == (old(self).index() + 1) % old(self).count(),
    {
        if self.focus_index + 1 == self.component_count {
            proof {
                lemma_mod_self_0(self.count());
            }
            self.focus_index = 0;
        } else {
            proof {
                lemma_small_mod((self.index() + 1) as nat, self.count() as nat);
            }
            self.focus_index = self.focus_index + 1;
        }
    }

    /// Moves one position back, wrapping from the first to the last.
    pub fn previous(&mut self)
        requires
            old(self).wf(),
        ensures
            final(self).wf(),
            final(self).count() == old(self).count(),
            final(self).index() == (old(self).index() + old(self).count() - 1) % old(self).count(),
    {
        if self.focus_index == 0 {
            proof {
                lemma_small_mod((self.count() - 1) as nat, self.count() as nat);
            }
            self.focus_index = self.component_count - 1;
        } else {
            proof {
                lemma_mod_add_multiples_vanish(self.index() - 1, self.count());
                lemma_small_mod((self.index() - 1) as nat, self.count() as nat);
            }
            self.focus_index = self.focus_index - 1;
        }
    }

    pub fn current(&self) -> (r: usize)
        ensures
            r == self.index(),
    {
        self.focus_index
    }
}

/// Moving forward and then back, or back and then forward, returns focus to
/// where it was.
pub proof fn lemma_next_previous_inverse(i: int, n: int)
    requires
        0 <= i < n,
    ensures
        (((i + 1) % n) + n - 1) % n == i,
        (((i + n - 1) % n) + 1) % n == i,
{
    if i + 1 == n {
        lemma_mod_self_0(n);
        lemma_small_mod((n - 1) as nat, n as nat);
    } else {
        lemma_small_mod((i + 1) as nat, n as nat);
        lemma_mod_add_multiples_vanish(i, n);
        lemma_small_mod(i as nat, n as nat);
    }
    if i == 0 {
        lemma_small_mod((n - 1) as nat, n as nat);
        lemma_mod_self_0(n);
    } else {
        lemma_mod_add_multiples_vanish(i - 1, n);
        lemma_small_mod((i - 1) as nat, n as nat);
        lemma_small_mod(i as nat, n as nat);
    }
}

} // verus!
