//! A bounded buffer that keeps the most recent items pushed into it.
use vstd::prelude::*;

verus! {

/// What a buffer of capacity `capacity` holds after `item` is pushed onto `items`
/// (oldest first): the item is appended and, once the buffer is full, the oldest
/// item is dropped. A buffer of capacity zero holds nothing.
pub open spec fn push_spec<T>(items: Seq<T>, capacity: nat, item: T) -> Seq<T> {
    if capacity == 0 {
        items
    } else if items.len() < capacity {
        items.push(item)
    } else {
        items.drop_first().push(item)
    }
}

/// The last `capacity` items of `pushed` (or all of them, when there are fewer).
pub open spec fn most_recent<T>(pushed: Seq<T>, capacity: nat) -> Seq<T> {
    if pushed.len() <= capacity {
        pushed
    } else {
        pushed.skip(pushed.len() - capacity)
    }
}

/// Pushes every item of `pushed`, in order, onto a buffer that holds `items`.
pub open spec fn push_all<T>(items: Seq<T>, capacity: nat, pushed: Seq<T>) -> Seq<T>
    decreases pushed.len(),
{
    if pushed.len() == 0 {
        items
    } else {
        push_all(push_spec(items, capacity, pushed[0]), capacity, pushed.drop_first())
    }
}

/// A ring buffer of at most `capacity` items that overwrites its oldest item once
/// it is full.
pub struct CircularBuffer<T> {
    items: Vec<T>,
    capacity: usize,
    next: usize,
}

impl<T> CircularBuffer<T> {
    /// The buffer's internal layout is consistent.
    pub closed spec fn wf(self) -> bool {
        &&& self.items.len() <= self.capacity
        &&& self.items.len() < self.capacity ==> self.next == 0
        &&& (self.next == 0 || self.next < self.items.len())
    }

    /// The items held, oldest first.
    pub closed spec fn contents(self) -> Seq<T> {
        self.items@.skip(self.next as int) + self.items@.take(self.next as int)
    }

    /// The greatest number of items the buffer holds.
    pub closed spec fn spec_capacity(self) -> nat {
        self.capacity as nat
    }

    /// Creates an empty buffer that keeps at most `capacity` items.
    pub fn new(capacity: usize) -> (buf: Self)
        ensures
            buf.wf(),
            buf.contents() == Seq::<T>::empty(),
            buf.spec_capacity() == capacity,
    {
        let buf = CircularBuffer { items: Vec::new(), capacity, next: 0 };
        proof {
            assert(buf.contents() =~= Seq::<T>::empty());
        }
        buf
    }

    /// The number of items held.
    pub fn len(&self) -> (n: usize)
        requires
            self.wf(),
        ensures
            n == self.contents().len(),
            n <= self.spec_capacity(),
    {
        self.items.len()
    }

    /// The greatest number of items the buffer holds.
    pub fn capacity(&self) -> (n: usize)
        ensures
            n == self.spec_capacity(),
    {
        self.capacity
    }

    /// Adds `item` as the newest item, dropping the oldest one when the buffer is full.
    pub fn push(&mut self, item: T)
        requires
            old(self).wf(),
        ensures
            final(self).wf(),
            final(self).contents() == push_spec(old(self).contents(), old(self).spec_capacity(), item),
            final(self).spec_capacity() == old(self).spec_capacity(),
    {
        let ghost before = self.contents();
        if self.capacity == 0 {
            return;
        }
        if self.items.len() < self.capacity {
            self.items.push(item);
            proof {
                assert(self.contents() =~= before.push(item));
            }
        } else {
            let ghost old_items = self.items@;
            let ghost n = self.next as int;
            self.items.set(self.next, item);
            let nx = if self.next + 1 == self.capacity { 0 } else { self.next + 1 };
            self.next = nx;
            proof {
                let len = old_items.len() as int;
                let new_items = old_items.update(n, item);
                assert(self.items@ == new_items);
                if nx == 0 {
                    assert(n == len - 1);
                    assert(self.contents() =~= new_items);
                    assert(before =~= old_items.skip(n) + old_items.take(n));
                    assert(before.drop_first().push(item) =~= new_items);
                } else {
                    assert(self.contents() =~= new_items.skip(n + 1) + new_items.take(n + 1));
                    assert(before.drop_first().push(item) =~= new_items.skip(n + 1) + new_items.take(
                        n + 1,
                    ));
                }
            }
        }
    }

    /// The `i`-th newest item: `0` is the item pushed last.
    pub fn get_newest(&self, i: usize) -> (item: &T)
        requires
            self.wf(),
            i < self.contents().len(),
        ensures
            *item == self.contents()[self.contents().len() - 1 - i],
    {
        let len = self.items.len();
        let back = len - 1 - i;
        let idx = if back < len - self.next { self.next + back } else { back - (len - self.next) };
        &self.items[idx]
    }
}

/// Pushing items one at a time into an empty buffer leaves exactly the last
/// `capacity` of them, oldest first.
pub proof fn lemma_keeps_most_recent<T>(capacity: nat, pushed: Seq<T>)
    ensures
        push_all(Seq::<T>::empty(), capacity, pushed) == most_recent(pushed, capacity),
{
    lemma_push_all_suffix(Seq::<T>::empty(), capacity, pushed);
    assert(Seq::<T>::empty() + pushed =~= pushed);
}

/// Pushing onto a buffer that holds `items` (no more than `capacity` of them) keeps
/// the most recent `capacity` items of everything seen.
pub proof fn lemma_push_all_suffix<T>(items: Seq<T>, capacity: nat, pushed: Seq<T>)
    requires
        items.len() <= capacity,
    ensures
        push_all(items, capacity, pushed) == most_recent(items + pushed, capacity),
    decreases pushed.len(),
{
    if pushed.len() == 0 {
        assert(items + pushed =~= items);
    } else {
        let next = push_spec(items, capacity, pushed[0]);
        lemma_push_keeps_most_recent(items, capacity, pushed[0]);
        lemma_push_all_suffix(next, capacity, pushed.drop_first());
        lemma_most_recent_concat(items.push(pushed[0]), capacity, pushed.drop_first());
        assert(items.push(pushed[0]) + pushed.drop_first() =~= items + pushed);
    }
}

proof fn lemma_push_keeps_most_recent<T>(items: Seq<T>, capacity: nat, item: T)
    requires
        items.len() <= capacity,
    ensures
        push_spec(items, capacity, item) == most_recent(items.push(item), capacity),
        push_spec(items, capacity, item).len() <= capacity,
{
    if capacity == 0 {
        assert(items.len() == 0);
        assert(items.push(item).skip(1) =~= items);
    } else if items.len() < capacity {
    } else {
        assert(items.drop_first().push(item) =~= items.push(item).skip(1));
    }
}

proof fn lemma_most_recent_concat<T>(items: Seq<T>, capacity: nat, rest: Seq<T>)
    ensures
        most_recent(most_recent(items, capacity) + rest, capacity) == most_recent(
            items + rest,
            capacity,
        ),
{
    let m = most_recent(items, capacity);
    if items.len() <= capacity {
    } else {
        let d = items.len() - capacity;
        let a = m + rest;
        let b = items + rest;
        assert(b.len() == a.len() + d);
        if a.len() <= capacity {
            assert(a.len() == capacity);
            assert(a =~= b.skip(b.len() - capacity));
        } else {
            assert(a.skip(a.len() - capacity) =~= b.skip(b.len() - capacity));
        }
    }
}

} // verus!
