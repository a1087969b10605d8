//! A fixed-capacity ring that never reallocates: pushing into a saturated
//! ring overwrites the oldest element instead of growing.

use vstd::prelude::*;

verus! {

/// Ring of at most `N` elements over a fixed block of `N` slots.
///
/// `array_start` points at the oldest live element (inclusive) and
/// `array_stop` one past the newest (exclusive). When the two coincide the
/// `full` flag tells a saturated ring from an empty one.
pub struct LoopArray<T: Default + Copy, const N: usize> {
    array_start: usize,
    array_stop: usize,
    full: bool,
    array: Vec<T>,
}

impl<T: Default + Copy, const N: usize> LoopArray<T, N> {
    /// Internal consistency: exactly `N` backing slots, cursors inside
    /// them, and a saturated ring only with coinciding cursors.
    pub closed spec fn wf(self) -> bool {
        &&& self.array@.len() == N
        &&& (N > 0 ==> self.array_start < N && self.array_stop < N)
        &&& (N == 0 ==> self.array_start == 0 && self.array_stop == 0 && !self.full)
        &&& (self.full ==> self.array_start == self.array_stop)
    }

    /// The live elements, oldest first.
    pub closed spec fn contents(self) -> Seq<T> {
        if self.full {
            self.array@.skip(self.array_start as int) + self.array@.take(self.array_start as int)
        } else if self.array_stop >= self.array_start {
            self.array@.subrange(self.array_start as int, self.array_stop as int)
        } else {
            self.array@.skip(self.array_start as int) + self.array@.take(self.array_stop as int)
        }
    }

    /// How many elements are live.
    pub fn len(&self) -> (r: usize)
        requires
            self.wf(),
        ensures
            r as int == self.contents().len(),
    {
        if self.full {
            return N;
        }
        if self.array_stop < self.array_start {
            return N - (self.array_start - self.array_stop);
        } else {
            return self.array_stop - self.array_start;
        }
    }

    /// A mutable borrow of the element `index` places after the oldest.
    pub fn get_mut(&mut self, index: usize) -> (r: &mut T)
        requires
            old(self).wf(),
            N > 0,
            index < old(self).contents().len(),
        ensures
            final(self).wf(),
            *r == old(self).contents()[index as int],
            final(self).contents().len() == old(self).contents().len(),
            *final(r) == final(self).contents()[index as int],
            forall|j: int|
                0 <= j < old(self).contents().len() && j != index ==> final(self).contents()[j]
                    == old(self).contents()[j],
    {
        let wrap: usize = N - self.array_start;
        let new_index: usize = if index < wrap {
            index + self.array_start
        } else {
            index - wrap
        };
        &mut self.array[new_index]
    }

    /// Append an element; a saturated ring overwrites its oldest one.
    pub fn push(&mut self, input: T)
        requires
            old(self).wf(),
            N > 0,
        ensures
            final(self).wf(),
            old(self).contents().len() < N ==> {
                &&& final(self).contents().len() == old(self).contents().len() + 1
                &&& forall|j: int|
                    0 <= j < old(self).contents().len() ==> final(self).contents()[j] == old(self).contents()[j]
                &&& final(self).contents().last() == input
            },
            old(self).contents().len() == N ==> {
                &&& final(self).contents().len() == N
                &&& forall|j: int|
                    0 <= j < N - 1 ==> final(self).contents()[j] == old(self).contents()[j + 1]
                &&& final(self).contents().last() == input
            },
    {
        let stop: usize = self.array_stop;
        let v: &mut T = &mut self.array[stop];
        *v = input;
        self.array_stop = if self.array_stop + 1 < N {
            self.array_stop + 1
        } else {
            0
        };
        if self.array_start == self.array_stop {
            self.full = true;
        } else if self.full == true {
            self.array_start = if self.array_start + 1 < N {
                self.array_start + 1
            } else {
                0
            };
        }
    }

    /// Drop the `count` oldest elements. Dropping zero elements from a
    /// saturated ring clears the saturation marker, which empties it: the
    /// coinciding cursors then read as an empty ring.
    pub fn remove_amount(&mut self, count: usize)
        requires
            old(self).wf(),
            count as int <= old(self).contents().len(),
        ensures
            final(self).wf(),
            old(self).contents().len() == N && N > 0 && count == 0 ==> final(self).contents().len()
                == 0,
            !(old(self).contents().len() == N && N > 0 && count == 0) ==> {
                &&& final(self).contents().len() == old(self).contents().len() - count as int
                &&& forall|j: int|
                    0 <= j < final(self).contents().len() ==> final(self).contents()[j] == old(self).contents()[j + count]
            },
    {
        self.full = false;
        if N > 0 {
            let wrap: usize = N - self.array_start;
            self.array_start = if count < wrap {
                self.array_start + count
            } else {
                count - wrap
            };
        }
    }

    /// Forget all elements.
    pub fn clear(&mut self)
        requires
            old(self).wf(),
        ensures
            final(self).wf() && final(self).contents().len() == 0,
    {
        self.array_start = 0;
        self.array_stop = 0;
        self.full = false;
    }

    /// An empty ring over `N` freshly defaulted slots.
    pub fn new() -> (r: LoopArray<T, N>)
        ensures
            r.wf(),
            r.contents().len() == 0,
    {
        let mut array: Vec<T> = Vec::new();
        let mut i: usize = 0;
        while i < N
            invariant
                array@.len() == i,
                i <= N,
            decreases N - i,
        {
            array.push(T::default());
            i = i + 1;
        }
        LoopArray { array_start: 0, array_stop: 0, full: false, array }
    }
}

} // verus!
