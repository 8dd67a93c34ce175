//! Ordered list of entries with a zero-based, wrapping selection index.
//!
//! The list is the shared track panel state: one task advances and recolors
//! it, another reads it to draw. Selection moves forward and backward with
//! wrap-around at both ends.

use vstd::prelude::*;

verus! {

/// The index reached by one forward step from `i` in a list of `n` entries:
/// the next index, wrapping past the last entry back to the first.
pub open spec fn step_forward(i: int, n: int) -> int {
    if i + 1 >= n {
        0
    } else {
        i + 1
    }
}

/// The index reached by one backward step from `i` in a list of `n` entries:
/// the previous index, wrapping past the first entry back to the last.
pub open spec fn step_back(i: int, n: int) -> int {
    if i == 0 {
        n - 1
    } else {
        i - 1
    }
}

/// The index selected after a forward step when the selection was `sel`:
/// with no prior selection the first entry is selected.
pub open spec fn next_position(sel: Option<usize>, n: int) -> int {
    match sel {
        Some(i) => step_forward(i as int, n),
        None => 0,
    }
}

/// The index selected after a backward step when the selection was `sel`:
/// with no prior selection the first entry is selected.
pub open spec fn previous_position(sel: Option<usize>, n: int) -> int {
    match sel {
        Some(i) => step_back(i as int, n),
        None => 0,
    }
}

/// `i` after `k` forward steps in a list of `n` entries.
pub open spec fn steps_forward(i: int, k: nat, n: int) -> int
    decreases k,
{
    if k == 0 {
        i
    } else {
        step_forward(steps_forward(i, (k - 1) as nat, n), n)
    }
}

/// A forward step and a backward step over the same list undo one another:
/// from any entry, stepping forward then backward returns to that entry,
/// and so does stepping backward then forward.
pub proof fn lemma_step_back_inverts_step_forward(i: int, n: int)
    requires
        0 <= i < n,
    ensures
        step_back(step_forward(i, n), n) == i,
        step_forward(step_back(i, n), n) == i,
{
}

/// Where at most one wrap can occur, iterated forward steps land at the
/// start plus the number of steps, reduced once by the list length.
pub proof fn lemma_steps_forward_bounded(i: int, k: nat, n: int)
    requires
        0 <= i < n,
        k <= n,
    ensures
        steps_forward(i, k, n) == if i + k < n {
            i + k
        } else {
            i + k - n
        },
    decreases k,
{
    if k > 0 {
        lemma_steps_forward_bounded(i, (k - 1) as nat, n);
    }
}

/// Stepping forward as many times as the list has entries returns the
/// selection to where it started.
pub proof fn lemma_full_cycle(i: int, n: int)
    requires
        0 <= i < n,
    ensures
        steps_forward(i, n as nat, n) == i,
{
    lemma_steps_forward_bounded(i, n as nat, n);
}

/// An ordered sequence of entries with an optional, wrapping selection index.
#[derive(Clone, Debug)]
pub struct SelectableList<T> {
    items: Vec<T>,
    selected: Option<usize>,
}

impl<T> SelectableList<T> {
    /// The entries, as a mathematical sequence.
    pub closed spec fn entries(self) -> Seq<T> {
        self.items@
    }

    /// The current selection index, if any.
    pub closed spec fn selection(self) -> Option<usize> {
        self.selected
    }

    /// A selection, when present, points at an entry.
    pub open spec fn wf(self) -> bool {
        self.selection() matches Some(i) ==> i < self.entries().len()
    }

    /// A fresh list over the given entries, with nothing selected.
    pub fn with_items(items: Vec<T>) -> (l: SelectableList<T>)
        ensures
            l.entries() == items@,
            l.selection() is None,
    {
        SelectableList { items, selected: None }
    }

    /// How many entries the list holds.
    pub fn len(&self) -> (n: usize)
        ensures
            n == self.entries().len(),
    {
        self.items.len()
    }

    /// The current selection index, if any.
    pub fn selected(&self) -> (sel: Option<usize>)
        ensures
            sel == self.selection(),
    {
        self.selected
    }

    /// Move the selection one entry forward, wrapping to the first entry
    /// past the end; with no prior selection, select the first entry.
    pub fn next(&mut self)
        requires
            old(self).entries().len() > 0,
        ensures
            final(self).entries() == old(self).entries(),
            final(self).selection() matches Some(j)
                && j == next_position(old(self).selection(), old(self).entries().len() as int),
            final(self).wf(),
    {
        let i: usize = match self.selected {
            Some(i) => {
                if i >= self.items.len() - 1 {
                    0
                } else {
                    i + 1
                }
            }
            None => 0,
        };
        self.selected = Some(i);
    }

    /// Move the selection one entry backward, wrapping to the last entry
    /// past the start; with no prior selection, select the first entry.
    pub fn previous(&mut self)
        requires
            old(self).entries().len() > 0,
        ensures
            final(self).entries() == old(self).entries(),
            final(self).selection() matches Some(j)
                && j == previous_position(old(self).selection(), old(self).entries().len() as int),
            old(self).wf() ==> final(self).wf(),
    {
        let i: usize = match self.selected {
            Some(i) => {
                if i == 0 {
                    self.items.len() - 1
                } else {
                    i - 1
                }
            }
            None => 0,
        };
        self.selected = Some(i);
    }

    /// The entry at index `i`.
    pub fn get(&self, i: usize) -> (e: &T)
        requires
            i < self.entries().len(),
        ensures
            *e == self.entries()[i as int],
    {
        &self.items[i]
    }

    /// Replace the entry at index `i`; the selection stays where it was.
    pub fn set_entry(&mut self, i: usize, entry: T)
        requires
            i < old(self).entries().len(),
        ensures
            final(self).entries() == old(self).entries().update(i as int, entry),
            final(self).selection() == old(self).selection(),
    {
        self.items.set(i, entry);
    }

    /// Clear the selection.
    pub fn unselect(&mut self)
        ensures
            final(self).entries() == old(self).entries(),
            final(self).selection() is None,
    {
        self.selected = None;
    }
}

} // verus!
