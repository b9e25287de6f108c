//! A bounded log that keeps the most recent records, evicting the oldest
//! first.

use vstd::prelude::*;
use std::collections::VecDeque;

verus! {

/// A record that can be copied field for field.
pub trait Record: Sized {
    fn copy_record(&self) -> (r: Self)
        ensures
            r == *self,
    ;
}

/// The records kept after appending `x` to `s` in a log that holds at most
/// `cap` of them: the oldest go first.
pub open spec fn push_bounded<T>(s: Seq<T>, x: T, cap: nat) -> Seq<T> {
    let t = s.push(x);
    if t.len() > cap {
        t.subrange(t.len() - cap, t.len() as int)
    } else {
        t
    }
}

/// The records kept after appending each of `items`, in order, to `s`.
pub open spec fn push_all_bounded<T>(s: Seq<T>, items: Seq<T>, cap: nat) -> Seq<T>
    decreases items.len(),
{
    if items.len() == 0 {
        s
    } else {
        push_bounded(push_all_bounded(s, items.drop_last(), cap), items.last(), cap)
    }
}

/// The `n` most recent records, newest first.
pub open spec fn newest_first<T>(s: Seq<T>, n: nat) -> Seq<T> {
    let k = if n < s.len() { n } else { s.len() };
    Seq::new(k, |i: int| s[s.len() - 1 - i])
}

/// A log of at most `capacity` records, oldest first.
pub struct LogRing<T> {
    entries: VecDeque<T>,
    capacity: usize,
}

impl<T> View for LogRing<T> {
    type V = Seq<T>;

    closed spec fn view(&self) -> Seq<T> {
        self.entries@
    }
}

impl<T> LogRing<T> {
    /// Well-formed: a positive capacity, never exceeded.
    pub closed spec fn wf(&self) -> bool {
        0 < self.capacity && self.entries@.len() <= self.capacity
    }

    /// The most records the log keeps.
    pub closed spec fn spec_capacity(&self) -> nat {
        self.capacity as nat
    }

    /// An empty log that keeps at most `capacity` records.
    pub fn new(capacity: usize) -> (r: Self)
        requires
            capacity > 0,
        ensures
            r.wf(),
            r@ == Seq::<T>::empty(),
            r.spec_capacity() == capacity,
    {
        LogRing { entries: VecDeque::new(), capacity }
    }

    pub fn capacity(&self) -> (r: usize)
        ensures
            r == self.spec_capacity(),
    {
        self.capacity
    }

    pub fn len(&self) -> (r: usize)
        requires
            self.wf(),
        ensures
            r == self@.len(),
            r <= self.spec_capacity(),
    {
        self.entries.len()
    }

    /// Appends a record, evicting the oldest one when the log is full.
    pub fn push(&mut self, x: T)
        requires
            old(self).wf(),
        ensures
            final(self).wf(),
            final(self)@ == push_bounded(old(self)@, x, old(self).spec_capacity()),
            final(self).spec_capacity() == old(self).spec_capacity(),
    {
        let ghost before = self.entries@;
        self.entries.push_back(x);
        if self.entries.len() > self.capacity {
            self.entries.pop_front();
        }
        assert(self.entries@ =~= push_bounded(before, x, self.capacity as nat));
    }

    /// A copy of every record, oldest first.
    pub fn snapshot(&self) -> (r: Vec<T>)
        where
            T: Record,
        ensures
            r@ == self@,
    {
        let mut out: Vec<T> = Vec::new();
        let n = self.entries.len();
        let mut i: usize = 0;
        while i < n
            invariant
                n == self@.len(),
                i <= n,
                out@ == self@.subrange(0, i as int),
            decreases n - i,
        {
            out.push(self.entries[i].copy_record());
            i += 1;
            assert(out@ =~= self@.subrange(0, i as int));
        }
        assert(out@ =~= self@);
        out
    }

    /// Copies of the `count` most recent records, newest first.
    pub fn recent(&self, count: usize) -> (r: Vec<T>)
        where
            T: Record,
        ensures
            r@ == newest_first(self@, count as nat),
    {
        let n = self.entries.len();
        let k = if count < n { count } else { n };
        let mut out: Vec<T> = Vec::new();
        let mut i: usize = 0;
        while i < k
            invariant
                n == self@.len(),
                k <= n,
                k == newest_first(self@, count as nat).len(),
                i <= k,
                out@ == newest_first(self@, count as nat).subrange(0, i as int),
            decreases k - i,
        {
            out.push(self.entries[n - 1 - i].copy_record());
            i += 1;
            assert(out@ =~= newest_first(self@, count as nat).subrange(0, i as int));
        }
        assert(out@ =~= newest_first(self@, count as nat));
        out
    }
}

/// Appending records one by one to an empty log of capacity `cap` keeps
/// exactly the `cap` most recent of them, in order: once more than `cap`
/// have been appended the log holds `cap`, and the oldest are gone first.
pub proof fn lemma_keeps_most_recent<T>(items: Seq<T>, cap: nat)
    requires
        cap > 0,
    ensures
        push_all_bounded(Seq::<T>::empty(), items, cap) == items.subrange(
            if items.len() > cap { items.len() - cap } else { 0 },
            items.len() as int,
        ),
    decreases items.len(),
{
    if items.len() > 0 {
        let rest = items.drop_last();
        lemma_keeps_most_recent(rest, cap);
        let lo = if rest.len() > cap { rest.len() - cap } else { 0 };
        let kept = rest.subrange(lo, rest.len() as int);
        assert(kept.push(items.last()) =~= items.subrange(lo, items.len() as int));
        let hi = if items.len() > cap { items.len() - cap } else { 0 };
        let t = kept.push(items.last());
        if t.len() > cap {
            assert(t.subrange(t.len() - cap, t.len() as int) =~= items.subrange(hi, items.len() as int));
        } else {
            assert(t =~= items.subrange(hi, items.len() as int));
        }
    } else {
        assert(items.subrange(0, 0) =~= Seq::<T>::empty());
    }
}

} // verus!
