//! The bounded ring buffer: a FIFO queue over `C` storage slots.

use vstd::prelude::*;

verus! {

/// Index of the slot holding the `i`-th live element when the live region
/// starts at `tail` in a buffer of `cap` slots: `tail + i`, wrapped past the
/// end of the storage. `head` and `tail` are kept reduced to `[0, cap)` at
/// every step, so a single conditional subtraction stands in for the modulo.
spec fn slot_at(tail: int, i: int, cap: int) -> int {
    if tail + i < cap {
        tail + i
    } else {
        tail + i - cap
    }
}

/// Whether slot `j` lies inside the live region of `len` slots starting at
/// `tail`: one contiguous range when the region does not cross the end of
/// the storage, two ranges (`[tail, cap)` and `[0, tail + len - cap)`) when
/// it wraps around.
spec fn slot_is_live(tail: int, len: int, cap: int, j: int) -> bool {
    if tail + len <= cap {
        tail <= j < tail + len
    } else {
        tail <= j < cap || 0 <= j < tail + len - cap
    }
}

/// A FIFO queue with a fixed capacity of `C` elements.
///
/// The backing storage is a fixed-length sequence of slots, each either
/// vacant (`None`) or live (`Some`); no slot carries its own liveness tag
/// beyond that, and which slots are live is determined entirely by `tail`
/// and `len`. Pushing into a full queue returns the value to the caller
/// unchanged instead of growing or overwriting; popping from an empty queue
/// returns `None`. `len` is the sole authority on empty versus full:
/// `head == tail` holds in both of those states and distinguishes neither.
///
/// Tagging each slot `None`/`Some` costs an explicit initialization of every slot up front, where raw uninitialized
/// storage would cost none; in exchange, vacancy is a checkable property,
/// and dropping the queue drops exactly the live elements, with no explicit
/// teardown code.
#[derive(Debug)]
pub struct ArrayQueue<T, const C: usize> {
    data: Vec<Option<T>>,
    head: usize,
    tail: usize,
    len: usize,
}

impl<T, const C: usize> View for ArrayQueue<T, C> {
    type V = Seq<T>;

    /// The live elements in FIFO order: the element popped next comes first.
    closed spec fn view(&self) -> Seq<T> {
        Seq::new(
            self.len as nat,
            |i: int| self.data@[slot_at(self.tail as int, i, C as int)]->Some_0,
        )
    }
}

impl<T, const C: usize> ArrayQueue<T, C> {
    /// Well-formedness of the buffer:
    /// - the storage holds exactly `C` slots;
    /// - at most `C` elements are live;
    /// - `head` and `tail` are reduced indexes into the storage;
    /// - `head` is `tail + len`, wrapped around the end of the storage;
    /// - a slot holds a value exactly when it lies in the live region.
    pub closed spec fn wf(&self) -> bool {
        &&& self.data@.len() == C
        &&& self.len <= C
        &&& (if C == 0 {
            self.head == 0 && self.tail == 0
        } else {
            self.head < C && self.tail < C
        })
        &&& (self.tail + self.len == self.head || self.tail + self.len == self.head + C)
        &&& forall|j: int|
            0 <= j < C ==> (self.data@[j] is Some <==> slot_is_live(
                self.tail as int,
                self.len as int,
                C as int,
                j,
            ))
    }

    /// Creates a new empty queue: every slot vacant, no element live.
    pub fn new() -> (q: Self)
        ensures
            q.wf(),
            q@ == Seq::<T>::empty(),
    {
        let mut data: Vec<Option<T>> = Vec::new();
        let mut i: usize = 0;
        while i < C
            invariant
                i <= C,
                data@.len() == i,
                forall|j: int| 0 <= j < i ==> data@[j] is None,
            decreases C - i,
        {
            data.push(None);
            i = i + 1;
        }
        let q = Self { data, head: 0, tail: 0, len: 0 };
        proof {
            assert(q@ =~= Seq::<T>::empty());
        }
        q
    }

    /// Returns the number of live elements in the queue.
    pub fn len(&self) -> (n: usize)
        requires
            self.wf(),
        ensures
            n == self@.len(),
    {
        self.len
    }

    /// Returns true if the queue holds no element.
    pub fn is_empty(&self) -> (b: bool)
        requires
            self.wf(),
        ensures
            b == (self@.len() == 0),
    {
        self.len == 0
    }

    /// Pushes an element at the back of the queue. If the queue is full, the
    /// value is handed back to the caller unchanged as `Err(value)` and the
    /// queue is left as it was; fullness is an ordinary, recoverable
    /// condition, not a failure.
    pub fn push(&mut self, value: T) -> (r: Result<(), T>)
        requires
            old(self).wf(),
        ensures
            final(self).wf(),
            old(self)@.len() < C ==> r is Ok && final(self)@ == old(self)@.push(value),
            old(self)@.len() == C ==> r == Result::<(), T>::Err(value) && final(self)@ == old(
                self,
            )@,
    {
        if self.len == C {
            return Err(value);
        }
        let h = self.head;
        self.data.set(h, Some(value));
        self.head = if h + 1 == C {
            0
        } else {
            h + 1
        };
        self.len = self.len + 1;
        proof {
            assert(self@ =~= old(self)@.push(value));
        }
        Ok(())
    }

    /// Pops the element at the front of the queue, vacating its slot. If the
    /// queue is empty, returns `None` and leaves the queue as it was;
    /// absence of data is an ordinary, expected outcome, not an error.
    pub fn pop(&mut self) -> (r: Option<T>)
        requires
            old(self).wf(),
        ensures
            final(self).wf(),
            old(self)@.len() == 0 ==> r is None && final(self)@ == old(self)@,
            old(self)@.len() > 0 ==> r == Some(old(self)@[0]) && final(self)@ == old(
                self,
            )@.subrange(1, old(self)@.len() as int),
    {
        if self.len == 0 {
            return None;
        }
        let t = self.tail;
        let mut slot: Option<T> = None;
        self.data.set_and_swap(t, &mut slot);
        self.tail = if t + 1 == C {
            0
        } else {
            t + 1
        };
        self.len = self.len - 1;
        proof {
            assert(self@ =~= old(self)@.subrange(1, old(self)@.len() as int));
        }
        slot
    }

    /// Removes and drops every live element and resets the queue to the
    /// empty state. Only the slots of the live region are touched: one
    /// contiguous range when `tail < head`, the two ranges `[tail, C)` and
    /// `[0, head)` when the live region wraps around the end of the
    /// storage. When the queue is already empty no slot is scanned at all —
    /// `head == tail` cannot distinguish empty from full, so `len` alone
    /// decides.
    pub fn clear(&mut self)
        requires
            old(self).wf(),
        ensures
            final(self).wf(),
            final(self)@ == Seq::<T>::empty(),
    {
        if self.len == 0 {
            proof {
                assert(self@ =~= Seq::<T>::empty());
            }
            return;
        }
        // Vacate the live slots from `tail` up to `head`, or up to the end
        // of the storage when the live region wraps.
        let end: usize = if self.tail < self.head {
            self.head
        } else {
            C
        };
        let mut i: usize = self.tail;
        while i < end
            invariant
                old(self).wf(),
                0 < old(self).len,
                self.head == old(self).head,
                self.tail == old(self).tail,
                self.len == old(self).len,
                self.data@.len() == C,
                end == (if self.tail < self.head {
                    self.head as int
                } else {
                    C as int
                }),
                self.tail <= i <= end,
                forall|j: int|
                    0 <= j < C ==> (self.data@[j] is Some <==> (slot_is_live(
                        self.tail as int,
                        self.len as int,
                        C as int,
                        j,
                    ) && !(self.tail <= j < i))),
            decreases end - i,
        {
            self.data.set(i, None);
            i = i + 1;
        }
        // When the live region wraps (or the queue is full with
        // `head == tail`), the remaining live slots are `[0, head)`.
        if self.tail >= self.head {
            let mut k: usize = 0;
            while k < self.head
                invariant
                    old(self).wf(),
                    0 < old(self).len,
                    self.head == old(self).head,
                    self.tail == old(self).tail,
                    self.len == old(self).len,
                    self.data@.len() == C,
                    self.tail >= self.head,
                    0 <= k <= self.head,
                    forall|j: int|
                        0 <= j < C ==> (self.data@[j] is Some <==> (slot_is_live(
                            self.tail as int,
                            self.len as int,
                            C as int,
                            j,
                        ) && !(self.tail <= j < C) && !(0 <= j < k))),
                decreases self.head - k,
            {
                self.data.set(k, None);
                k = k + 1;
            }
        }
        self.head = 0;
        self.tail = 0;
        self.len = 0;
        proof {
            assert(self@ =~= Seq::<T>::empty());
        }
    }
}

impl<T, const C: usize> Default for ArrayQueue<T, C> {
    /// Creates a new empty queue.
    fn default() -> (q: Self)
        ensures
            q.wf(),
            q@ == Seq::<T>::empty(),
    {
        Self::new()
    }
}

/// The number of live elements never exceeds the capacity.
pub proof fn lemma_len_bounded<T, const C: usize>(q: &ArrayQueue<T, C>)
    requires
        q.wf(),
    ensures
        q@.len() <= C,
{
}

/// A queue of capacity zero is empty in every well-formed state: every push
/// fails and every pop returns `None`, by the contracts of `push` and `pop`.
pub proof fn lemma_zero_capacity_always_empty<T>(q: &ArrayQueue<T, 0>)
    requires
        q.wf(),
    ensures
        q@.len() == 0,
{
}

} // verus!
