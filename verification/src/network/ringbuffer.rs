use crate::ringbuffer::{ring_distance, ring_index};
use vstd::prelude::*;

verus! {

/// Fixed-size ring storage for the transport layer's data streams. Unlike the
/// general ring buffer, popping hands nothing back and demands a non-empty
/// buffer.
pub struct RingBuffer<T> {
    elements: Vec<Option<T>>,
    max_elements: usize,
    head: usize,
    tail: usize,
    size: usize,
}

impl<T> RingBuffer<T> {
    /// The fixed number of slots.
    pub closed spec fn capacity(self) -> int {
        self.max_elements as int
    }

    /// The number of items currently queued.
    pub closed spec fn len(self) -> int {
        self.size as int
    }

    /// The queued items in order from oldest to newest.
    pub closed spec fn contents(self) -> Seq<T> {
        Seq::new(
            self.size as nat,
            |j: int| self.elements@[ring_index(self.tail as int, j, self.max_elements as int)].unwrap(),
        )
    }

    /// Structural well-formedness: cursors stay on the ring, the occupied
    /// window starts at `tail` and holds exactly `size` slots, and every slot
    /// outside the window is unpopulated.
    pub closed spec fn wf(self) -> bool {
        &&& self.elements@.len() == self.max_elements
        &&& self.max_elements > 0
        &&& self.head < self.max_elements
        &&& self.tail < self.max_elements
        &&& self.size <= self.max_elements
        &&& self.head as int == ring_index(self.tail as int, self.size as int, self.max_elements as int)
        &&& forall|j: int|
            0 <= j < self.max_elements ==> (self.elements@[j] is Some <==> ring_distance(
                self.tail as int,
                j,
                self.max_elements as int,
            ) < self.size)
    }

    /// What `item` returns for a given index: the index wraps modulo the
    /// capacity, and an unpopulated slot reads as absent.
    pub open spec fn item_spec(self, index: int) -> Option<T> {
        if index % self.capacity() < self.len() {
            Some(self.contents()[index % self.capacity()])
        } else {
            None
        }
    }

    /// Initialize a new Ring Buffer with the maximum number of elements.
    pub fn new(max_elements: usize) -> (r: Self)
        requires
            max_elements > 0,
        ensures
            r.wf(),
            r.capacity() == max_elements,
            r.len() == 0,
            r.contents() == Seq::<T>::empty(),
    {
        let mut elements: Vec<Option<T>> = Vec::new();
        let mut i: usize = 0;
        while i < max_elements
            invariant
                i <= max_elements,
                elements@.len() == i,
                forall|j: int| 0 <= j < i ==> elements@[j] is None,
            decreases max_elements - i,
        {
            elements.push(None);
            i = i + 1;
        }

        let r = Self { elements, max_elements, head: 0, tail: 0, size: 0 };
        proof {
            assert(r.contents() =~= Seq::<T>::empty());
        }
        r
    }

    /// Returns the item at the front of the buffer, absent when empty.
    pub fn front(&self) -> (r: &Option<T>)
        requires
            self.wf(),
        ensures
            *r == if self.len() == 0 {
                None::<T>
            } else {
                Some(self.contents()[0])
            },
    {
        proof {
            assert(ring_distance(self.tail as int, self.tail as int, self.max_elements as int) == 0);
        }
        &self.elements[self.tail]
    }

    /// Returns the item at a given index; the index wraps modulo the
    /// capacity, and an unpopulated slot reads as absent.
    pub fn item(&self, index: usize) -> (r: &Option<T>)
        requires
            self.wf(),
        ensures
            *r == self.item_spec(index as int),
    {
        let rem: usize = index % self.max_elements;
        let gap: usize = self.max_elements - self.tail;
        let slot: usize = if rem < gap {
            self.tail + rem
        } else {
            rem - gap
        };
        proof {
            assert(slot as int == ring_index(self.tail as int, rem as int, self.max_elements as int));
            assert(ring_distance(self.tail as int, slot as int, self.max_elements as int)
                == rem as int);
        }
        &self.elements[slot]
    }

    /// Drop the item at the front of the buffer. Popping an empty buffer
    /// would lose track of the occupied window, so it is ruled out up front.
    pub fn pop(&mut self)
        requires
            old(self).wf(),
            old(self).len() > 0,
        ensures
            final(self).wf(),
            final(self).capacity() == old(self).capacity(),
            final(self).len() == old(self).len() - 1,
            final(self).contents() == old(self).contents().drop_first(),
    {
        proof {
            assert(ring_distance(self.tail as int, self.tail as int, self.max_elements as int) == 0);
        }
        self.elements[self.tail] = None;
        self.tail = if self.tail + 1 < self.max_elements {
            self.tail + 1
        } else {
            0
        };
        self.size = self.size - 1;

        proof {
            assert forall|j: int| 0 <= j < self.max_elements implies (self.elements@[j] is Some
                <==> ring_distance(self.tail as int, j, self.max_elements as int)
                    < self.size) by {
                assert(ring_distance(
                    old(self).tail as int,
                    j,
                    self.max_elements as int,
                ) < old(self).size || j == old(self).tail || !(self.elements@[j] is Some));
            }
            assert(self.contents() =~= old(self).contents().drop_first());
        }
    }

    /// Push the given item onto the buffer. Filling the buffer past its fixed
    /// capacity is a hard invariant violation, ruled out up front.
    pub fn push(&mut self, item: T)
        requires
            old(self).wf(),
            old(self).len() < old(self).capacity(),
        ensures
            final(self).wf(),
            final(self).capacity() == old(self).capacity(),
            final(self).len() == old(self).len() + 1,
            final(self).contents() == old(self).contents().push(item),
    {
        self.elements[self.head] = Some(item);
        self.head = if self.head + 1 < self.max_elements {
            self.head + 1
        } else {
            0
        };
        self.size = self.size + 1;
        proof {
            assert forall|j: int| 0 <= j < self.max_elements implies (self.elements@[j] is Some
                <==> ring_distance(self.tail as int, j, self.max_elements as int)
                    < self.size) by {
                assert(ring_distance(
                    self.tail as int,
                    old(self).head as int,
                    self.max_elements as int,
                ) == old(self).size);
            }
            assert(self.contents() =~= old(self).contents().push(item));
        }
    }

    /// Returns the size of the buffer.
    pub fn size(&self) -> (r: usize)
        ensures
            r == self.len(),
    {
        self.size
    }

    /// Returns whether the buffer is empty or not.
    pub fn empty(&self) -> (r: bool)
        ensures
            r == (self.len() == 0),
    {
        self.size == 0
    }
}

/// The contents view is exactly as long as the size the buffer reports, and
/// the size never exceeds the fixed capacity.
pub proof fn lemma_buffer_bounds<T>(rb: RingBuffer<T>)
    requires
        rb.wf(),
    ensures
        rb.contents().len() == rb.len(),
        0 <= rb.len() <= rb.capacity(),
        0 < rb.capacity(),
{
}

} // verus!
