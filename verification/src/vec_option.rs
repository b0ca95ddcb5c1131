//! A vector of optional slots, where freed slots are reused and the count
//! of occupied slots is kept.

use vstd::prelude::*;

verus! {

/// The number of occupied slots.
pub open spec fn count_some<T>(slots: Seq<Option<T>>) -> nat
    decreases slots.len(),
{
    if slots.len() == 0 {
        0
    } else {
        count_some(slots.drop_last()) + if slots.last() is Some { 1nat } else { 0nat }
    }
}

/// The number of occupied slots is at most the number of slots, and is
/// less exactly when a slot is free.
pub proof fn lemma_count_some_bound<T>(slots: Seq<Option<T>>)
    ensures
        count_some(slots) <= slots.len(),
        count_some(slots) < slots.len() <==> exists|i: int| 0 <= i < slots.len() && slots[i] is None,
    decreases slots.len(),
{
    if slots.len() > 0 {
        let rest = slots.drop_last();
        lemma_count_some_bound(rest);
        if count_some(slots) < slots.len() {
            if slots.last() is None {
                assert(slots[slots.len() - 1] is None);
            } else {
                let i = choose|i: int| 0 <= i < rest.len() && rest[i] is None;
                assert(slots[i] is None);
            }
        }
        if exists|i: int| 0 <= i < slots.len() && slots[i] is None {
            let i = choose|i: int| 0 <= i < slots.len() && slots[i] is None;
            if i < slots.len() - 1 {
                assert(rest[i] is None);
            }
        }
    }
}

/// Updating one slot changes the count by the change of that slot.
pub proof fn lemma_count_some_update<T>(slots: Seq<Option<T>>, index: int, value: Option<T>)
    requires
        0 <= index < slots.len(),
    ensures
        count_some(slots.update(index, value)) + (if slots[index] is Some { 1int } else { 0int })
            == count_some(slots) + (if value is Some { 1int } else { 0int }),
    decreases slots.len(),
{
    let updated = slots.update(index, value);
    if index == slots.len() - 1 {
        assert(updated.drop_last() =~= slots.drop_last());
    } else {
        assert(updated.drop_last() =~= slots.drop_last().update(index, value));
        lemma_count_some_update(slots.drop_last(), index, value);
    }
}

/// Appending a slot adds its occupancy to the count.
pub proof fn lemma_count_some_push<T>(slots: Seq<Option<T>>, value: Option<T>)
    ensures
        count_some(slots.push(value)) == count_some(slots) + (if value is Some { 1nat } else { 0nat }),
{
    assert(slots.push(value).drop_last() =~= slots);
}

/// The first free slot, if there is one.
pub open spec fn first_free<T>(slots: Seq<Option<T>>, index: int) -> bool {
    &&& 0 <= index < slots.len()
    &&& slots[index] is None
    &&& forall|j: int| 0 <= j < index ==> #[trigger] slots[j] is Some
}

/// The index of the first free slot, or the number of slots when none is
/// free.
pub open spec fn first_free_index<T>(slots: Seq<Option<T>>) -> int
    decreases slots.len(),
{
    if slots.len() == 0 {
        0
    } else if slots[0] is None {
        0
    } else {
        1 + first_free_index(slots.subrange(1, slots.len() as int))
    }
}

/// `first_free_index` finds the first free slot when there is one.
pub proof fn lemma_first_free_index<T>(slots: Seq<Option<T>>)
    ensures
        0 <= first_free_index(slots) <= slots.len(),
        first_free_index(slots) < slots.len() ==> first_free(slots, first_free_index(slots)),
        first_free_index(slots) == slots.len() ==> forall|j: int| 0 <= j < slots.len() ==> #[trigger] slots[j] is Some,
    decreases slots.len(),
{
    if slots.len() > 0 && slots[0] is Some {
        let rest = slots.subrange(1, slots.len() as int);
        lemma_first_free_index(rest);
        assert forall|j: int| 0 <= j < first_free_index(slots) implies #[trigger] slots[j] is Some by {
            if j > 0 {
                assert(slots[j] == rest[j - 1]);
            }
        }
    }
}

/// The slots and count after pushing an element, and the index it takes.
pub open spec fn push_model<T>(slots: Seq<Option<T>>, count: nat, element: T) -> (Seq<Option<T>>, nat, int) {
    if count < slots.len() {
        (slots.update(first_free_index(slots), Some(element)), count + 1, first_free_index(slots))
    } else {
        (slots.push(Some(element)), count + 1, slots.len() as int)
    }
}

/// The slots and count after taking a slot, and what it held.
pub open spec fn take_model<T>(slots: Seq<Option<T>>, count: nat, index: int) -> (Seq<Option<T>>, nat, Option<T>) {
    if count == 0 {
        (slots, count, None)
    } else {
        let element = slots[index];
        let remaining: nat = if element is Some { (count - 1) as nat } else { count };
        (if remaining == 0 { Seq::empty() } else { slots.update(index, None) }, remaining, element)
    }
}

/// The slots and count after popping the last slot, and what it held.
pub open spec fn pop_model<T>(slots: Seq<Option<T>>, count: nat) -> (Seq<Option<T>>, nat, Option<T>) {
    if count == 0 {
        (slots, count, None)
    } else {
        let element = slots.last();
        let remaining: nat = if element is Some { (count - 1) as nat } else { count };
        (if remaining == 0 { Seq::empty() } else { slots.drop_last() }, remaining, element)
    }
}

/// Whether the same slots are occupied.
pub open spec fn same_occupancy<T>(a: Seq<Option<T>>, b: Seq<Option<T>>) -> bool {
    forall|i: int| 0 <= i < a.len() || 0 <= i < b.len() ==>
        ((0 <= i < a.len() && a[i] is Some) <==> (0 <= i < b.len() && b[i] is Some))
}

/// Taking the slot an element was pushed into gives the element back,
/// restores the count, and leaves the same slots occupied as before.
pub proof fn push_then_take<T>(slots: Seq<Option<T>>, count: nat, element: T)
    requires
        count == count_some(slots),
        count == 0 ==> slots.len() == 0,
    ensures
        ({
            let (pushed, pushed_count, index) = push_model(slots, count, element);
            let (taken, taken_count, result) = take_model(pushed, pushed_count, index);
            &&& result == Some(element)
            &&& taken_count == count
            &&& same_occupancy(taken, slots)
        }),
{
    lemma_first_free_index(slots);
    lemma_count_some_bound(slots);
}

/// A vector of optional slots: an element goes into the first free slot,
/// and the vector is emptied once no slot is occupied.
#[derive(Debug)]
pub struct VecOption<T> {
    count: usize,
    vec: Vec<Option<T>>,
}

impl<T> VecOption<T> {
    /// The slots.
    pub closed spec fn slots(&self) -> Seq<Option<T>> {
        self.vec@
    }

    /// The number of occupied slots, as kept.
    pub closed spec fn count(&self) -> nat {
        self.count as nat
    }

    /// The kept count is the number of occupied slots, and an unoccupied
    /// vector has no slots.
    pub open spec fn wf(&self) -> bool {
        &&& self.count() == count_some(self.slots())
        &&& (self.count() == 0 ==> self.slots().len() == 0)
    }

    /// An empty vector.
    pub fn new() -> (empty: Self)
        ensures
            empty.wf(),
            empty.slots() == Seq::<Option<T>>::empty(),
            empty.count() == 0,
    {
        VecOption { count: 0, vec: Vec::new() }
    }

    /// The number of occupied slots.
    pub fn occupied(&self) -> (count: usize)
        ensures
            count == self.count(),
    {
        self.count
    }

    /// The number of slots.
    pub fn len(&self) -> (len: usize)
        ensures
            len == self.slots().len(),
    {
        self.vec.len()
    }

    /// The slot at an index.
    pub fn slot(&self, index: usize) -> (slot: &Option<T>)
        requires
            index < self.slots().len(),
        ensures
            *slot == self.slots()[index as int],
    {
        &self.vec[index]
    }

    /// Put an element into the first free slot, or a new slot at the end
    /// when none is free, and return the index of that slot.
    pub fn push(&mut self, element: T) -> (index: usize)
        requires
            old(self).wf(),
        ensures
            final(self).wf(),
            final(self).count() == old(self).count() + 1,
            (final(self).slots(), final(self).count(), index as int) == push_model(old(self).slots(), old(self).count(), element),
            old(self).count() < old(self).slots().len() ==> {
                &&& first_free(old(self).slots(), index as int)
                &&& final(self).slots() == old(self).slots().update(index as int, Some(element))
            },
            old(self).count() >= old(self).slots().len() ==> {
                &&& index == old(self).slots().len()
                &&& final(self).slots() == old(self).slots().push(Some(element))
            },
    {
        proof {
            lemma_count_some_bound(self.vec@);
            lemma_first_free_index(self.vec@);
        }
        let mut len = self.vec.len();
        if self.count < len {
            let mut i: usize = 0;
            while i < self.vec.len() && self.vec[i].is_some()
                invariant
                    i <= self.vec@.len(),
                    self.vec@ == old(self).vec@,
                    forall|j: int| 0 <= j < i ==> #[trigger] self.vec@[j] is Some,
                decreases self.vec@.len() - i,
            {
                i = i + 1;
            }
            if i == self.vec.len() {
                proof {
                    let k = choose|k: int| 0 <= k < self.vec@.len() && self.vec@[k] is None;
                    assert(self.vec@[k] is Some);
                }
            }
            proof {
                lemma_count_some_update(self.vec@, i as int, Some(element));
            }
            self.vec.set(i, Some(element));
            len = i;
        } else {
            proof {
                lemma_count_some_push(self.vec@, Some(element));
            }
            self.vec.push(Some(element));
            let _ = self.vec.len();
        }
        self.count = self.count + 1;
        len
    }

    /// Remove the last slot and return it; nothing is done when no slot is
    /// occupied.
    pub fn pop(&mut self) -> (element: Option<T>)
        requires
            old(self).wf(),
        ensures
            final(self).wf(),
            (final(self).slots(), final(self).count(), element) == pop_model(old(self).slots(), old(self).count()),
            old(self).count() == 0 ==> element is None && final(self).slots() == old(self).slots()
                && final(self).count() == 0,
            old(self).count() > 0 ==> {
                &&& element == old(self).slots().last()
                &&& final(self).count() == old(self).count() - (if element is Some { 1int } else { 0int })
                &&& final(self).slots() == if final(self).count() == 0 {
                    Seq::<Option<T>>::empty()
                } else {
                    old(self).slots().drop_last()
                }
            },
    {
        if self.count == 0 {
            return None;
        }
        let element = self.vec.pop().unwrap();
        proof {
            assert(old(self).vec@.drop_last() =~= self.vec@);
        }
        if element.is_some() {
            self.count = self.count - 1;
            if self.count == 0 {
                self.vec.clear();
            }
        }
        element
    }

    /// Replace the content of a slot, and return its previous content. The
    /// kept count is not changed.
    pub fn replace(&mut self, index: usize, element: Option<T>) -> (previous: Option<T>)
        requires
            index < old(self).slots().len(),
        ensures
            previous == old(self).slots()[index as int],
            final(self).slots() == old(self).slots().update(index as int, element),
            final(self).count() == old(self).count(),
            old(self).wf() && (previous is Some == element is Some) ==> final(self).wf(),
    {
        let old_element = self.vec[index].take();
        self.vec.set(index, element);
        proof {
            lemma_count_some_update(old(self).vec@, index as int, self.vec@[index as int]);
            assert(self.vec@ =~= old(self).vec@.update(index as int, self.vec@[index as int]));
        }
        old_element
    }

    /// Empty a slot and return its content; nothing is done when no slot
    /// is occupied.
    pub fn take(&mut self, index: usize) -> (element: Option<T>)
        requires
            old(self).wf(),
            old(self).count() > 0 ==> index < old(self).slots().len(),
        ensures
            final(self).wf(),
            (final(self).slots(), final(self).count(), element) == take_model(old(self).slots(), old(self).count(), index as int),
            old(self).count() == 0 ==> element is None && final(self).slots() == old(self).slots()
                && final(self).count() == 0,
            old(self).count() > 0 ==> {
                &&& element == old(self).slots()[index as int]
                &&& final(self).count() == old(self).count() - (if element is Some { 1int } else { 0int })
                &&& final(self).slots() == if final(self).count() == 0 {
                    Seq::<Option<T>>::empty()
                } else {
                    old(self).slots().update(index as int, None)
                }
            },
    {
        if self.count == 0 {
            return None;
        }
        let element = self.vec[index].take();
        proof {
            lemma_count_some_update(old(self).vec@, index as int, None);
        }
        if element.is_some() {
            self.count = self.count - 1;
            if self.count == 0 {
                self.vec.clear();
            }
        }
        element
    }
}

} // verus!
