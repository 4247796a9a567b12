//! A cursor-addressable list with wrap-around navigation.

use vstd::prelude::*;

verus! {

/// An ordered sequence of items together with an optional cursor.
///
/// `cursor` is `None` when nothing is selected; otherwise it holds an index
/// into `items`. Every operation keeps the cursor inside bounds (`inv`), and
/// navigation on an empty list is a no-op that leaves the cursor untouched.
pub struct StatefulList<T> {
    pub items: Vec<T>,
    pub cursor: Option<usize>,
}

/// The cursor after one `next` on a list of length `len`: an absent cursor
/// selects index 0, the last index wraps to 0, any other index advances by 1.
/// On an empty list the cursor is left as it was.
pub open spec fn next_cursor(c: Option<int>, len: int) -> Option<int> {
    if len <= 0 {
        c
    } else {
        match c {
            Option::None => Option::Some(0int),
            Option::Some(i) => if i >= len - 1 {
                Option::Some(0int)
            } else {
                Option::Some(i + 1)
            },
        }
    }
}

/// The cursor after one `previous` on a list of length `len`: an absent
/// cursor selects index 0, index 0 wraps to the last index, any other index
/// moves back by 1. On an empty list the cursor is left as it was.
pub open spec fn previous_cursor(c: Option<int>, len: int) -> Option<int> {
    if len <= 0 {
        c
    } else {
        match c {
            Option::None => Option::Some(0int),
            Option::Some(i) => if i == 0 {
                Option::Some(len - 1)
            } else {
                Option::Some(i - 1)
            },
        }
    }
}

/// The reconciliation policy applied when the items are replaced: the cursor
/// keeps its index, clamped to the new bounds, and becomes `None` when the
/// new list is empty.
pub open spec fn clamped_cursor(c: Option<int>, new_len: int) -> Option<int> {
    match c {
        Option::None => Option::None::<int>,
        Option::Some(i) => if new_len <= 0 {
            Option::None::<int>
        } else if i < new_len {
            Option::Some(i)
        } else {
            Option::Some(new_len - 1)
        },
    }
}

impl<T> StatefulList<T> {
    /// The cursor invariant: a selected index is always inside the items.
    pub open spec fn inv(&self) -> bool {
        match self.cursor {
            Option::Some(i) => i < self.items.len(),
            Option::None => true,
        }
    }

    /// The cursor as a mathematical value.
    pub open spec fn selected(&self) -> Option<int> {
        match self.cursor {
            Option::Some(i) => Option::Some(i as int),
            Option::None => Option::None::<int>,
        }
    }

    /// Creates a list over `items` with nothing selected.
    pub fn with_items(items: Vec<T>) -> (r: StatefulList<T>)
        ensures
            r.items@ == items@,
            r.selected() == Option::<int>::None,
            r.inv(),
    {
        StatefulList { items, cursor: Option::None }
    }

    /// Replaces the item sequence wholesale, reconciling the cursor by
    /// `clamped_cursor`: the index is kept, clamped to the new bounds, and
    /// dropped when the new list is empty.
    pub fn update_items(&mut self, items: Vec<T>)
        ensures
            final(self).items@ == items@,
            final(self).selected() == clamped_cursor(
                old(self).selected(),
                items@.len() as int,
            ),
            final(self).inv(),
    {
        self.items = items;
        let len = self.items.len();
        match self.cursor {
            Option::Some(i) => {
                if len == 0 {
                    self.cursor = Option::None;
                } else if i >= len {
                    self.cursor = Option::Some(len - 1);
                }
            },
            Option::None => {},
        }
    }

    /// Advances the cursor by one, wrapping to index 0 past the last item;
    /// an absent cursor selects index 0. On an empty list this is a no-op,
    /// so the cursor stays `None` and nothing underflows.
    pub fn next(&mut self)
        requires
            old(self).inv(),
        ensures
            final(self).items@ == old(self).items@,
            final(self).selected() == next_cursor(
                old(self).selected(),
                old(self).items@.len() as int,
            ),
            final(self).inv(),
    {
        if self.items.len() == 0 {
            return;
        }
        let i: usize = match self.cursor {
            Option::Some(i) => if i >= self.items.len() - 1 {
                0
            } else {
                i + 1
            },
            Option::None => 0,
        };
        self.cursor = Option::Some(i);
    }

    /// Moves the cursor back by one, wrapping from index 0 to the last item;
    /// an absent cursor selects index 0. On an empty list this is a no-op,
    /// so the cursor stays `None` and nothing underflows.
    pub fn previous(&mut self)
        requires
            old(self).inv(),
        ensures
            final(self).items@ == old(self).items@,
            final(self).selected() == previous_cursor(
                old(self).selected(),
                old(self).items@.len() as int,
            ),
            final(self).inv(),
    {
        if self.items.len() == 0 {
            return;
        }
        let i: usize = match self.cursor {
            Option::Some(i) => if i == 0 {
                self.items.len() - 1
            } else {
                i - 1
            },
            Option::None => 0,
        };
        self.cursor = Option::Some(i);
    }

    /// Clears the selection unconditionally.
    pub fn unselect(&mut self)
        ensures
            final(self).items@ == old(self).items@,
            final(self).selected() == Option::<int>::None,
            final(self).inv(),
    {
        self.cursor = Option::None;
    }

    /// The selected index, if any; no side effect.
    pub fn selected_index(&self) -> (r: Option<usize>)
        ensures
            r == self.cursor,
            match r {
                Option::Some(i) => self.selected() == Option::Some(i as int),
                Option::None => self.selected() == Option::<int>::None,
            },
    {
        self.cursor
    }
}

/// Well-formedness of a spec-level cursor for a list of length `len`:
/// absent, or an index inside the list.
pub open spec fn cursor_wf(c: Option<int>, len: int) -> bool {
    match c {
        Option::Some(i) => 0 <= i < len,
        Option::None => true,
    }
}

/// The index selected right after one `next` from cursor `c`, on a
/// non-empty list of length `len`.
pub open spec fn first_next(c: Option<int>, len: int) -> int {
    match c {
        Option::None => 0int,
        Option::Some(i) => if i >= len - 1 {
            0int
        } else {
            i + 1
        },
    }
}

/// The index reached from index `i` by `k` further `next` steps on a list
/// of length `len`.
pub open spec fn advance(i: int, k: nat, len: int) -> int
    decreases k,
{
    if k == 0 {
        i
    } else {
        let j = advance(i, (k - 1) as nat, len);
        if j >= len - 1 {
            0int
        } else {
            j + 1
        }
    }
}

/// The cursor after `k` consecutive `next` calls from cursor `c`.
pub open spec fn cursor_after_nexts(c: Option<int>, len: int, k: nat) -> Option<int>
    decreases k,
{
    if k == 0 {
        c
    } else {
        next_cursor(cursor_after_nexts(c, len, (k - 1) as nat), len)
    }
}

/// Closed form of `advance` for at most one full wrap: `i + k`, reduced by
/// `len` once the end is passed.
pub proof fn lemma_advance_formula(i: int, k: nat, len: int)
    requires
        len > 0,
        0 <= i < len,
        k <= len,
    ensures
        advance(i, k, len) == if i + k < len {
            i + k
        } else {
            i + k - len
        },
    decreases k,
{
    if k > 0 {
        lemma_advance_formula(i, (k - 1) as nat, len);
    }
}

/// `advance` composes: `a + b` steps are `a` steps followed by `b` steps.
pub proof fn lemma_advance_compose(i: int, a: nat, b: nat, len: int)
    ensures
        advance(i, a + b, len) == advance(advance(i, a, len), b, len),
    decreases b,
{
    if b > 0 {
        lemma_advance_compose(i, a, (b - 1) as nat, len);
    }
}

/// After the first of `k >= 1` `next` calls the cursor is the definite
/// index `first_next`, and the remaining `k - 1` calls advance it.
pub proof fn lemma_nexts_as_advance(c: Option<int>, len: int, k: nat)
    requires
        len > 0,
        cursor_wf(c, len),
        k >= 1,
    ensures
        cursor_after_nexts(c, len, k) == Option::Some(
            advance(first_next(c, len), (k - 1) as nat, len),
        ),
    decreases k,
{
    let s = first_next(c, len);
    if k == 1 {
        assert(cursor_after_nexts(c, len, 1) == next_cursor(cursor_after_nexts(c, len, 0nat), len));
        assert(cursor_after_nexts(c, len, 0nat) == c);
        assert(advance(s, 0nat, len) == s);
    } else {
        lemma_nexts_as_advance(c, len, (k - 1) as nat);
        assert(cursor_after_nexts(c, len, k) == next_cursor(
            cursor_after_nexts(c, len, (k - 1) as nat),
            len,
        ));
        assert(advance(s, (k - 1) as nat, len) == {
            let j = advance(s, (k - 2) as nat, len);
            if j >= len - 1 {
                0int
            } else {
                j + 1
            }
        });
    }
}

/// Law: on a non-empty list, repeated `next` calls cycle through the
/// indices without repetition for a full period — the cursors after the
/// `k1`-th and `k2`-th of the first `len` calls differ whenever `k1 != k2`.
pub proof fn lemma_next_cycle_distinct(c: Option<int>, len: int, k1: nat, k2: nat)
    requires
        len > 0,
        cursor_wf(c, len),
        1 <= k1 < k2 <= len,
    ensures
        cursor_after_nexts(c, len, k1) != cursor_after_nexts(c, len, k2),
{
    let s = first_next(c, len);
    lemma_nexts_as_advance(c, len, k1);
    lemma_nexts_as_advance(c, len, k2);
    lemma_advance_formula(s, (k1 - 1) as nat, len);
    lemma_advance_formula(s, (k2 - 1) as nat, len);
}

/// Law: on a non-empty list, the first `len` `next` calls reach every
/// index — for each index `t` some call among them selects `t`. Together
/// with `lemma_next_cycle_distinct` this says a period visits every index
/// exactly once.
pub proof fn lemma_next_cycle_covers(c: Option<int>, len: int, t: int)
    requires
        len > 0,
        cursor_wf(c, len),
        0 <= t < len,
    ensures
        exists|k: nat| 1 <= k <= len && cursor_after_nexts(c, len, k) == Option::Some(t),
{
    let s = first_next(c, len);
    let k: nat = if t >= s {
        (t - s + 1) as nat
    } else {
        (t + len - s + 1) as nat
    };
    lemma_nexts_as_advance(c, len, k);
    lemma_advance_formula(s, (k - 1) as nat, len);
    assert(1 <= k <= len && cursor_after_nexts(c, len, k) == Option::Some(t));
}

/// Law: the `next` cycle has period `len` — after `len` further calls the
/// cursor is back where it was.
pub proof fn lemma_next_cycle_period(c: Option<int>, len: int, k: nat)
    requires
        len > 0,
        cursor_wf(c, len),
        k >= 1,
    ensures
        cursor_after_nexts(c, len, (k + len) as nat) == cursor_after_nexts(c, len, k),
{
    let s = first_next(c, len);
    lemma_nexts_as_advance(c, len, k);
    lemma_nexts_as_advance(c, len, (k + len) as nat);
    lemma_advance_compose(s, len as nat, (k - 1) as nat, len);
    lemma_advance_formula(s, len as nat, len);
    assert((k + len - 1) as nat == len as nat + (k - 1) as nat);
}

/// Law: from any existing selection on a non-empty list, `next` followed by
/// `previous` — and `previous` followed by `next` — returns the cursor to
/// its original index. (From an empty selection the pair does not return to
/// `None`: each call selects an index.)
pub proof fn lemma_next_previous_round_trip(c: Option<int>, len: int)
    requires
        len > 0,
        cursor_wf(c, len),
        c is Some,
    ensures
        previous_cursor(next_cursor(c, len), len) == c,
        next_cursor(previous_cursor(c, len), len) == c,
{
}

/// Law: on a non-empty list, clearing the selection and calling `next`
/// always lands on index 0.
pub proof fn lemma_unselect_then_next(len: int)
    requires
        len > 0,
    ensures
        next_cursor(Option::None::<int>, len) == Option::Some(0int),
{
}

} // verus!
