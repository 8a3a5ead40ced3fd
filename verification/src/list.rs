use vstd::prelude::*;

verus! {

/// An ordered collection with a single optional cursor position. The cursor
/// moves forward and backward with wrap-around: advancing past the last index
/// returns to the first, retreating before the first returns to the last.
pub struct StatefulList<T> {
    pub items: Vec<T>,
    pub cursor: Option<usize>,
}

/// The cursor a forward step leaves behind: on an empty list the cursor is
/// kept as it is, an unset cursor settles on the first index, the last index
/// wraps to the first, and any other index advances by one.
pub open spec fn next_cursor(cur: Option<int>, len: int) -> Option<int> {
    if len <= 0 {
        cur
    } else {
        match cur {
            Option::None => Option::Some(0int),
            Option::Some(i) => Option::Some(if i >= len - 1 { 0int } else { i + 1 }),
        }
    }
}

/// The cursor a backward step leaves behind, symmetric to `next_cursor`: the
/// first index wraps to the last, any other set index retreats by one.
pub open spec fn prev_cursor(cur: Option<int>, len: int) -> Option<int> {
    if len <= 0 {
        cur
    } else {
        match cur {
            Option::None => Option::Some(0int),
            Option::Some(i) => Option::Some(if i == 0 { len - 1 } else { i - 1 }),
        }
    }
}

impl<T> StatefulList<T> {
    /// The cursor as a mathematical value.
    pub open spec fn cursor_int(self) -> Option<int> {
        match self.cursor {
            Option::None => Option::None,
            Option::Some(i) => Option::Some(i as int),
        }
    }

    /// Well-formed: a set cursor stays inside the items.
    pub open spec fn wf(self) -> bool {
        match self.cursor {
            Option::None => true,
            Option::Some(i) => (i as int) < self.items@.len(),
        }
    }

    /// The item under the cursor, if the cursor is set and in range.
    pub open spec fn spec_selected(self) -> Option<T> {
        match self.cursor {
            Option::None => Option::None,
            Option::Some(i) => if (i as int) < self.items@.len() {
                Option::Some(self.items@[i as int])
            } else {
                Option::None
            },
        }
    }

    /// Builds a list over the given items with the cursor unset.
    pub fn with_items(items: Vec<T>) -> (l: StatefulList<T>)
        ensures
            l.items@ == items@,
            l.cursor is None,
            l.wf(),
    {
        StatefulList { items, cursor: Option::None }
    }

    /// Moves the cursor one step forward, wrapping past the end; on an empty
    /// list nothing changes.
    pub fn next(&mut self)
        requires
            old(self).wf(),
        ensures
            final(self).items@ == old(self).items@,
            final(self).cursor_int() == next_cursor(
                old(self).cursor_int(),
                old(self).items@.len() as int,
            ),
            final(self).wf(),
    {
        if self.items.len() == 0 {
            return;
        }
        let i: usize = match self.cursor {
            Option::Some(i) => if i >= self.items.len() - 1 {
                0
            } else {
                i + 1
            },
            Option::None => 0,
        };
        self.cursor = Option::Some(i);
    }

    /// Moves the cursor one step backward, wrapping past the start; on an
    /// empty list nothing changes.
    pub fn prev(&mut self)
        requires
            old(self).wf(),
        ensures
            final(self).items@ == old(self).items@,
            final(self).cursor_int() == prev_cursor(
                old(self).cursor_int(),
                old(self).items@.len() as int,
            ),
            final(self).wf(),
    {
        if self.items.len() == 0 {
            return;
        }
        let i: usize = match self.cursor {
            Option::Some(i) => if i == 0 {
                self.items.len() - 1
            } else {
                i - 1
            },
            Option::None => 0,
        };
        self.cursor = Option::Some(i);
    }

    /// Returns the item under the cursor, or nothing when the cursor is unset
    /// or out of range.
    pub fn selected(&self) -> (r: Option<&T>)
        ensures
            r is Some <==> self.spec_selected() is Some,
            r matches Some(v) ==> self.spec_selected() == Option::Some(*v),
    {
        match self.cursor {
            Option::None => Option::None,
            Option::Some(i) => if i < self.items.len() {
                Option::Some(&self.items[i])
            } else {
                Option::None
            },
        }
    }
}

/// The cursor after `n` forward steps over a list of length `len`.
pub open spec fn iterate_next(cur: Option<int>, len: int, n: nat) -> Option<int>
    decreases n,
{
    if n == 0 {
        cur
    } else {
        iterate_next(next_cursor(cur, len), len, (n - 1) as nat)
    }
}

/// Law: on an empty list neither a forward nor a backward step ever changes
/// the cursor.
pub proof fn lemma_empty_list_noop(cur: Option<int>)
    ensures
        next_cursor(cur, 0) == cur,
        prev_cursor(cur, 0) == cur,
{
}

/// Law: on a non-empty list, a backward step from an unset cursor settles on
/// the first index, exactly as a forward step from an unset cursor does.
pub proof fn lemma_unset_step_selects_first(len: int)
    requires
        len > 0,
    ensures
        next_cursor(Option::<int>::None, len) == Option::Some(0int),
        prev_cursor(Option::<int>::None, len) == Option::Some(0int),
{
}

/// Law: from any settled index on a non-empty list, a forward step followed
/// by a backward step returns the cursor to where it was, and so does a
/// backward step followed by a forward step, across the wrap boundary too.
pub proof fn lemma_next_prev_inverse(i: int, len: int)
    requires
        0 <= i < len,
    ensures
        prev_cursor(next_cursor(Option::Some(i), len), len) == Option::Some(i),
        next_cursor(prev_cursor(Option::Some(i), len), len) == Option::Some(i),
{
}

/// Splitting iterated forward steps: stepping `m + n` times is stepping `m`
/// times and then `n` more.
proof fn lemma_iterate_next_add(cur: Option<int>, len: int, m: nat, n: nat)
    ensures
        iterate_next(cur, len, m + n) == iterate_next(iterate_next(cur, len, m), len, n),
    decreases m,
{
    if m > 0 {
        lemma_iterate_next_add(next_cursor(cur, len), len, (m - 1) as nat, n);
    }
}

/// Before the wrap boundary, each forward step advances the index by one.
proof fn lemma_iterate_next_advances(i: int, len: int, n: nat)
    requires
        0 <= i < len,
        i + n < len,
    ensures
        iterate_next(Option::Some(i), len, n) == Option::Some(i + n),
    decreases n,
{
    if n > 0 {
        lemma_iterate_next_advances(i + 1, len, (n - 1) as nat);
    }
}

/// Law: on a non-empty list whose cursor has settled on some index, a full
/// round of forward steps — as many as there are items — returns the cursor
/// to that same index.
pub proof fn lemma_next_full_cycle(i: int, len: int)
    requires
        0 <= i < len,
    ensures
        iterate_next(Option::Some(i), len, len as nat) == Option::Some(i),
{
    let to_end = (len - 1 - i) as nat;
    lemma_iterate_next_advances(i, len, to_end);
    assert(iterate_next(Option::Some(i), len, to_end) == Option::Some(len - 1));
    lemma_iterate_next_add(Option::Some(i), len, to_end, 1nat);
    assert(iterate_next(Option::Some(len - 1), len, 1nat) == iterate_next(
        next_cursor(Option::Some(len - 1), len),
        len,
        0nat,
    ));
    assert(iterate_next(Option::Some(i), len, to_end + 1) == Option::Some(0int));
    lemma_iterate_next_add(Option::Some(i), len, to_end + 1, i as nat);
    lemma_iterate_next_advances(0, len, i as nat);
    assert(to_end + 1 + i == len);
}

} // verus!
