//! A bounded single-producer / multi-consumer ring of slots with per-slot
//! readiness flags. One slot always stays empty, so a ring of `CAPACITY`
//! slots holds at most `CAPACITY - 1` values; `head == tail` means empty.
//!
//! Operations take the ring by `&mut`: whoever shares it between a producer
//! and its consumers serializes the calls, and the values come out in the
//! order in which they went in.
use vstd::prelude::*;

use vstd::arithmetic::div_mod::{lemma_mod_self_0, lemma_small_mod};

verus! {

/// A push onto `queue` in a ring of `capacity` slots succeeds.
pub open spec fn push_accepts<T>(queue: Seq<T>, capacity: nat) -> bool {
    queue.len() + 1 < capacity
}

/// The queue after pushing each of `values` in turn, and whether every push
/// was accepted.
pub open spec fn push_each<T>(queue: Seq<T>, values: Seq<T>, capacity: nat) -> (Seq<T>, bool)
    decreases values.len(),
{
    if values.len() == 0 {
        (queue, true)
    } else {
        let accepted = push_accepts(queue, capacity);
        let next = if accepted {
            queue.push(values[0])
        } else {
            queue
        };
        let (rest, all) = push_each(next, values.drop_first(), capacity);
        (rest, accepted && all)
    }
}

/// The values that `count` pops take from `queue`, in the order taken.
pub open spec fn pop_each<T>(queue: Seq<T>, count: nat) -> Seq<T>
    decreases count,
{
    if count == 0 || queue.len() == 0 {
        Seq::empty()
    } else {
        seq![queue[0]] + pop_each(queue.drop_first(), (count - 1) as nat)
    }
}

/// First in, first out: into an empty ring, `K <= CAPACITY - 1` pushes are
/// all accepted, and `K` pops then return the pushed values in push order.
pub proof fn lemma_ring_fifo<T>(values: Seq<T>, capacity: nat)
    requires
        capacity > 1,
        values.len() + 1 <= capacity,
    ensures
        push_each(Seq::<T>::empty(), values, capacity) == (values, true),
        pop_each(values, values.len()) == values,
{
    lemma_push_each(Seq::<T>::empty(), values, capacity);
    assert(Seq::<T>::empty() + values =~= values);
    lemma_pop_each(values);
}

proof fn lemma_push_each<T>(queue: Seq<T>, values: Seq<T>, capacity: nat)
    requires
        queue.len() + values.len() + 1 <= capacity,
    ensures
        push_each(queue, values, capacity) == (queue + values, true),
    decreases values.len(),
{
    if values.len() == 0 {
        assert(queue + values =~= queue);
    } else {
        lemma_push_each(queue.push(values[0]), values.drop_first(), capacity);
        assert(queue.push(values[0]) + values.drop_first() =~= queue + values);
    }
}

proof fn lemma_pop_each<T>(queue: Seq<T>)
    ensures
        pop_each(queue, queue.len()) == queue,
    decreases queue.len(),
{
    if queue.len() > 0 {
        lemma_pop_each(queue.drop_first());
        assert(seq![queue[0]] + queue.drop_first() =~= queue);
    }
}

/// A ring of `CAPACITY` slots.
pub struct SpmcRingBuffer<T, const CAPACITY: usize> {
    slots: Vec<Option<T>>,
    ready: Vec<bool>,
    head: usize,
    tail: usize,
}

impl<T, const CAPACITY: usize> View for SpmcRingBuffer<T, CAPACITY> {
    type V = Seq<T>;

    /// The values held, oldest first.
    closed spec fn view(&self) -> Seq<T> {
        Seq::new(self.len_spec(), |i: int| self.slots@[self.slot_of(i)]->Some_0)
    }
}

impl<T, const CAPACITY: usize> SpmcRingBuffer<T, CAPACITY> {
    /// Number of values held.
    pub closed spec fn len_spec(&self) -> nat {
        if self.head >= self.tail {
            (self.head - self.tail) as nat
        } else {
            (self.head + CAPACITY - self.tail) as nat
        }
    }

    /// The slot that holds the `i`-th oldest value.
    closed spec fn slot_of(&self, i: int) -> int {
        if self.tail + i < CAPACITY {
            self.tail + i
        } else {
            self.tail + i - CAPACITY
        }
    }

    /// Slot `k` lies between tail (included) and head (excluded).
    closed spec fn occupied(&self, k: int) -> bool {
        if self.tail <= self.head {
            self.tail <= k < self.head
        } else {
            k >= self.tail || k < self.head
        }
    }

    /// Slot and flag arrays of `CAPACITY` entries; a slot is ready exactly
    /// when it lies between tail and head, and a ready slot holds a value.
    pub closed spec fn wf(&self) -> bool {
        &&& CAPACITY > 1
        &&& self.slots@.len() == CAPACITY
        &&& self.ready@.len() == CAPACITY
        &&& self.head < CAPACITY
        &&& self.tail < CAPACITY
        &&& forall|k: int| 0 <= k < CAPACITY ==> (#[trigger] self.ready@[k] <==> self.occupied(k))
        &&& forall|k: int| 0 <= k < CAPACITY && #[trigger] self.occupied(k) ==> self.slots@[k] is Some
    }

    /// An empty ring. A ring needs at least two slots.
    pub fn new() -> (r: Self)
        requires
            CAPACITY > 1,
        ensures
            r.wf(),
            r.view() == Seq::<T>::empty(),
    {
        let mut slots: Vec<Option<T>> = Vec::new();
        let mut ready: Vec<bool> = Vec::new();
        let mut i: usize = 0;
        while i < CAPACITY
            invariant
                i <= CAPACITY,
                slots@.len() == i,
                ready@.len() == i,
                forall|k: int| 0 <= k < i ==> !#[trigger] ready@[k],
            decreases CAPACITY - i,
        {
            slots.push(None);
            ready.push(false);
            i += 1;
        }
        let r = SpmcRingBuffer { slots, ready, head: 0, tail: 0 };
        assert(r.view() =~= Seq::<T>::empty());
        r
    }

    /// The slot after `i`, wrapping to zero.
    fn next_index(i: usize) -> (r: usize)
        requires
            CAPACITY > 1,
            i < CAPACITY,
        ensures
            r == (if i + 1 == CAPACITY {
                0
            } else {
                i + 1
            }),
    {
        proof {
            if i + 1 == CAPACITY {
                lemma_mod_self_0(CAPACITY as int);
            } else {
                lemma_small_mod((i + 1) as nat, CAPACITY as nat);
            }
        }
        (i + 1) % CAPACITY
    }

    /// Enqueues `value`, or hands it back when the ring is full.
    pub fn push(&mut self, value: T) -> (r: Result<(), T>)
        requires
            old(self).wf(),
        ensures
            final(self).wf(),
            r is Ok <==> push_accepts(old(self).view(), CAPACITY as nat),
            r is Ok ==> final(self).view() == old(self).view().push(value),
            r is Err ==> r == Err::<(), T>(value) && final(self).view() == old(self).view(),
    {
        let head = self.head;
        let next = Self::next_index(head);
        if next == self.tail {
            return Err(value);
        }
        let ghost before = *self;
        self.slots.set(head, Some(value));
        self.ready.set(head, true);
        self.head = next;
        proof {
            assert forall|k: int| 0 <= k < CAPACITY implies (#[trigger] self.ready@[k]
                <==> self.occupied(k)) by {
                if k != head {
                    assert(before.ready@[k] <==> before.occupied(k));
                }
            }
            assert forall|k: int| 0 <= k < CAPACITY && #[trigger] self.occupied(k) implies self.slots@[k] is Some by {
                if k != head {
                    assert(before.occupied(k));
                }
            }
            assert forall|i: int| 0 <= i < before.len_spec() implies before.slot_of(i) != head
                && self.slot_of(i) == before.slot_of(i) by {
                assert(before.occupied(before.slot_of(i)));
            }
            assert(self.view() =~= before.view().push(value));
        }
        Ok(())
    }

    /// Takes the oldest value, or `None` when the ring is empty.
    pub fn pop(&mut self) -> (r: Option<T>)
        requires
            old(self).wf(),
        ensures
            final(self).wf(),
            old(self).view().len() == 0 ==> r is None && final(self).view() == old(self).view(),
            old(self).view().len() > 0 ==> r == Some(old(self).view()[0]) && final(self).view()
                == old(self).view().drop_first(),
    {
        let tail = self.tail;
        if tail == self.head {
            return None;
        }
        let ghost before = *self;
        let next = Self::next_index(tail);
        self.tail = next;
        assert(before.occupied(tail as int));
        // The slot was marked ready before head moved past it.
        self.ready.set(tail, false);
        let mut value: Option<T> = None;
        self.slots.set_and_swap(tail, &mut value);
        proof {
            assert forall|k: int| 0 <= k < CAPACITY implies (#[trigger] self.ready@[k]
                <==> self.occupied(k)) by {
                if k != tail {
                    assert(before.ready@[k] <==> before.occupied(k));
                }
            }
            assert forall|k: int| 0 <= k < CAPACITY && #[trigger] self.occupied(k) implies self.slots@[k] is Some by {
                assert(before.occupied(k));
            }
            assert forall|i: int| 0 <= i < self.len_spec() implies self.slot_of(i) == before.slot_of(i + 1)
                && self.slot_of(i) != tail by {
            }
            assert(self.view() =~= before.view().drop_first());
        }
        value
    }
}

} // verus!
