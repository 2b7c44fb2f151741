//! A growing list of records with an optional selected index.
//!
//! One rule holds for every index that is set from outside: an index that
//! names no record, the length of the list included, is pulled back to the
//! last record. In an empty list nothing can be selected.

use vstd::prelude::*;

verus! {

/// Where the selection goes when it moves one record forward in a list of
/// `len` records: one step towards the last record, stopping there. With no
/// selection the first record is taken. An empty list has nothing to select.
pub open spec fn next_selection(selected: Option<nat>, len: nat) -> Option<nat> {
    if len == 0 {
        selected
    } else {
        match selected {
            Some(i) => Some(if i + 1 < len { i + 1 } else { (len - 1) as nat }),
            None => Some(0),
        }
    }
}

/// Where the selection goes when it moves one record backward: one step
/// towards the first record, stopping there. With no selection the first
/// record is taken. An empty list has nothing to select.
pub open spec fn prev_selection(selected: Option<nat>, len: nat) -> Option<nat> {
    if len == 0 {
        selected
    } else {
        match selected {
            Some(i) => Some(if i == 0 { 0 } else { (i - 1) as nat }),
            None => Some(0),
        }
    }
}

/// Where the selection goes on a jump to `target`: to that record, or to the
/// last one when `target` lies beyond it. An empty list has nothing to select.
pub open spec fn goto_selection(selected: Option<nat>, len: nat, target: nat) -> Option<nat> {
    if len == 0 {
        selected
    } else {
        Some(if target < len { target } else { (len - 1) as nat })
    }
}

/// The selection is either absent or the index of an existing record.
pub open spec fn selection_in_range(selected: Option<nat>, len: nat) -> bool {
    selected matches Some(i) ==> i < len
}

/// What a [`StateList`] holds: its records in insertion order and the
/// selected index, if any.
pub struct ListView<T> {
    pub items: Seq<T>,
    pub selected: Option<nat>,
}

impl<T> ListView<T> {
    pub open spec fn wf(self) -> bool {
        selection_in_range(self.selected, self.items.len())
    }
}

/// An append-only list of records with an optional selection. The selection,
/// when there is one, always names an existing record: `new` makes a list of
/// which that holds, and every method keeps it so.
pub struct StateList<T> {
    items: Vec<T>,
    selected: Option<usize>,
}

impl<T> View for StateList<T> {
    type V = ListView<T>;

    closed spec fn view(&self) -> ListView<T> {
        ListView {
            items: self.items@,
            selected: match self.selected {
                Some(i) => Some(i as nat),
                None => None,
            },
        }
    }
}

impl<T> StateList<T> {
    /// The invariant of the list: the selection names an existing record.
    pub open spec fn wf(&self) -> bool {
        self@.wf()
    }

    /// A list never holds more records than a `usize` can count.
    pub proof fn lemma_len_fits(&self)
        ensures
            self@.items.len() <= usize::MAX,
    {
        assert(self.items.len() == self.items@.len());
    }

    /// An empty list with nothing selected.
    pub fn new() -> (list: StateList<T>)
        ensures
            list.wf(),
            list@.items == Seq::<T>::empty(),
            list@.selected is None,
    {
        StateList { items: Vec::new(), selected: None }
    }

    /// The number of records.
    pub fn len(&self) -> (n: usize)
        ensures
            n == self@.items.len(),
    {
        self.items.len()
    }

    /// The selected index, if any.
    pub fn selected(&self) -> (selected: Option<usize>)
        ensures
            match selected {
                Some(i) => self@.selected == Some(i as nat),
                None => self@.selected is None,
            },
    {
        self.selected
    }

    /// The record at `index`, or `None` beyond the end.
    pub fn get(&self, index: usize) -> (item: Option<&T>)
        ensures
            index < self@.items.len() ==> item == Some(&self@.items[index as int]),
            index >= self@.items.len() ==> item is None,
    {
        if index < self.items.len() {
            Some(&self.items[index])
        } else {
            None
        }
    }

    /// The records from `start` to the end, in order; none when `start` lies
    /// beyond the end.
    pub fn items_from(&self, start: usize) -> (tail: &[T])
        ensures
            start <= self@.items.len() ==> tail@ == self@.items.subrange(
                start as int,
                self@.items.len() as int,
            ),
            start > self@.items.len() ==> tail@ == Seq::<T>::empty(),
    {
        let len: usize = self.items.len();
        let from: usize = if start <= len { start } else { len };
        vstd::slice::slice_subrange(self.items.as_slice(), from, len)
    }

    /// Appends a record. The selection stays where it is.
    pub fn push(&mut self, item: T)
        ensures
            old(self).wf() ==> final(self).wf(),
            final(self)@.items == old(self)@.items.push(item),
            final(self)@.selected == old(self)@.selected,
    {
        self.items.push(item);
    }

    /// Moves the selection one record forward.
    pub fn next(&mut self)
        ensures
            old(self).wf() ==> final(self).wf(),
            final(self)@.items == old(self)@.items,
            final(self)@.selected == next_selection(old(self)@.selected, old(self)@.items.len()),
    {
        if self.items.len() == 0 {
            return ;
        }
        let last: usize = self.items.len() - 1;
        let i: usize = match self.selected {
            Some(i) => if i < last {
                i + 1
            } else {
                last
            },
            None => 0,
        };
        self.selected = Some(i);
    }

    /// Moves the selection one record backward.
    pub fn prev(&mut self)
        ensures
            old(self).wf() ==> final(self).wf(),
            final(self)@.items == old(self)@.items,
            final(self)@.selected == prev_selection(old(self)@.selected, old(self)@.items.len()),
    {
        if self.items.len() == 0 {
            return ;
        }
        let i: usize = match self.selected {
            Some(i) => if i > 0 {
                i - 1
            } else {
                0
            },
            None => 0,
        };
        self.selected = Some(i);
    }

    /// Selects the record at `select`, or the last record when `select` lies
    /// beyond it.
    pub fn select(&mut self, select: usize)
        ensures
            old(self).wf() ==> final(self).wf(),
            final(self)@.items == old(self)@.items,
            final(self)@.selected == goto_selection(
                old(self)@.selected,
                old(self)@.items.len(),
                select as nat,
            ),
    {
        let len: usize = self.items.len();
        if len == 0 {
            return ;
        }
        if select >= len {
            self.selected = Some(len - 1);
        } else {
            self.selected = Some(select);
        }
    }

    /// Drops the selection.
    pub fn unselect(&mut self)
        ensures
            final(self).wf(),
            final(self)@.items == old(self)@.items,
            final(self)@.selected is None,
    {
        self.selected = None;
    }
}

} // verus!
