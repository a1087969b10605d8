//! The bounded ring of recent drag deltas, replayed with a configurable
//! lag so the window trails the cursor by a tunable number of frames.
//!
//! The ring itself is `circular_buffer::CircularBuffer`, held behind
//! trusted wrappers whose contracts state what that crate's source shows
//! about each call; the per-frame policy around it (retiring old deltas,
//! recording new ones, replaying their sum, draining when idle) is
//! verified here.

use vstd::prelude::*;
use circular_buffer::CircularBuffer;
use crate::fx::{Fx, v_add};
use crate::vec2::Vec2;

verus! {

#[verifier::external_type_specification]
#[verifier::external_body]
#[verifier::reject_recursive_types(T)]
pub struct ExCircularBuffer<const N: usize, T>(CircularBuffer<N, T>);

/// What a delta ring holds, oldest first, as raw coordinate pairs.
pub uninterp spec fn ring_entries(b: &CircularBuffer<10, (i64, i64)>) -> Seq<(i64, i64)>;

/// Relies on CircularBuffer::new: the fresh buffer is empty.
#[verifier::external_body]
fn cb_new() -> (r: CircularBuffer<10, (i64, i64)>)
    ensures
        ring_entries(&r) == Seq::<(i64, i64)>::empty(),
{
    CircularBuffer::new()
}

/// Relies on CircularBuffer::len: the number of stored elements, which
/// never exceeds the compile-time capacity.
#[verifier::external_body]
fn cb_len(b: &CircularBuffer<10, (i64, i64)>) -> (r: usize)
    ensures
        r == ring_entries(b).len(),
        r <= 10,
{
    b.len()
}

/// Relies on CircularBuffer::pop_front: removes and returns the oldest
/// element, or returns None and changes nothing when the buffer is empty.
#[verifier::external_body]
fn cb_pop_front(b: &mut CircularBuffer<10, (i64, i64)>) -> (r: Option<(i64, i64)>)
    ensures
        ring_entries(&*old(b)).len() == 0 ==> r is None && ring_entries(&*final(b))
            == ring_entries(&*old(b)),
        ring_entries(&*old(b)).len() > 0 ==> r == Some(ring_entries(&*old(b)).first())
            && ring_entries(&*final(b)) == ring_entries(&*old(b)).drop_first(),
{
    b.pop_front()
}

/// Relies on CircularBuffer::push_back: appends at the back; when the
/// buffer is at capacity it removes and returns the front element to
/// make room.
#[verifier::external_body]
fn cb_push_back(b: &mut CircularBuffer<10, (i64, i64)>, item: (i64, i64)) -> (r: Option<
    (i64, i64),
>)
    ensures
        ring_entries(&*old(b)).len() < 10 ==> r is None && ring_entries(&*final(b))
            == ring_entries(&*old(b)).push(item),
        ring_entries(&*old(b)).len() >= 10 ==> r == Some(ring_entries(&*old(b)).first())
            && ring_entries(&*final(b)) == ring_entries(&*old(b)).drop_first().push(item),
{
    b.push_back(item)
}

/// Relies on CircularBuffer::clear: removes every element.
#[verifier::external_body]
fn cb_clear(b: &mut CircularBuffer<10, (i64, i64)>)
    ensures
        ring_entries(&*final(b)) == Seq::<(i64, i64)>::empty(),
{
    b.clear()
}

/// Relies on CircularBuffer::iter: yields the elements front to back.
#[verifier::external_body]
fn cb_items(b: &CircularBuffer<10, (i64, i64)>) -> (r: Vec<(i64, i64)>)
    ensures
        r@ == ring_entries(b),
{
    b.iter().copied().collect()
}

/// The saturating sum of one coordinate over a run of deltas, added
/// oldest to newest.
pub open spec fn replay_sum_x(s: Seq<(i64, i64)>) -> int
    decreases s.len(),
{
    if s.len() == 0 {
        0
    } else {
        v_add(replay_sum_x(s.drop_last()), s.last().0 as int)
    }
}

/// The saturating sum of the other coordinate, added oldest to newest.
pub open spec fn replay_sum_y(s: Seq<(i64, i64)>) -> int
    decreases s.len(),
{
    if s.len() == 0 {
        0
    } else {
        v_add(replay_sum_y(s.drop_last()), s.last().1 as int)
    }
}

/// The delay ring and its per-frame policy.
pub struct DelayBuffer {
    deltas: CircularBuffer<10, (i64, i64)>,
}

impl DelayBuffer {
    /// The recorded deltas, oldest first.
    pub closed spec fn entries(&self) -> Seq<(i64, i64)> {
        ring_entries(&self.deltas)
    }

    /// An empty ring.
    pub fn new() -> (r: DelayBuffer)
        ensures
            r.entries().len() == 0,
    {
        DelayBuffer { deltas: cb_new() }
    }

    /// How many deltas are recorded.
    pub fn len(&self) -> (r: usize)
        ensures
            r == self.entries().len(),
            r <= 10,
    {
        cb_len(&self.deltas)
    }

    /// Retire the oldest deltas until fewer than `delay_frames` remain;
    /// a zero `delay_frames` disables the ring and retires nothing.
    pub fn retire_over(&mut self, delay_frames: u32)
        ensures
            delay_frames == 0 ==> final(self).entries() == old(self).entries(),
            delay_frames > 0 ==> ({
                let keep: int = if old(self).entries().len() < delay_frames - 1 {
                    old(self).entries().len() as int
                } else {
                    delay_frames - 1
                };
                final(self).entries() == old(self).entries().skip(
                    old(self).entries().len() - keep,
                )
            }),
    {
        if delay_frames == 0 {
            return ;
        }
        let ghost orig: Seq<(i64, i64)> = self.entries();
        let ghost keep: int = if orig.len() < delay_frames - 1 {
            orig.len() as int
        } else {
            delay_frames - 1
        };
        proof {
            assert(orig.skip(0) =~= orig);
        }
        while cb_len(&self.deltas) as u64 >= delay_frames as u64
            invariant
                delay_frames > 0,
                keep == if orig.len() < delay_frames - 1 {
                    orig.len() as int
                } else {
                    delay_frames - 1
                },
                self.entries().len() >= keep,
                exists|k: int| 0 <= k <= orig.len() && self.entries() == orig.skip(k),
            decreases self.entries().len(),
        {
            let ghost pre: Seq<(i64, i64)> = self.entries();
            let ghost k0: int = choose|k: int| 0 <= k <= orig.len() && pre == orig.skip(k);
            let popped: Option<(i64, i64)> = cb_pop_front(&mut self.deltas);
            proof {
                assert(self.entries() == pre.drop_first());
                assert(pre.drop_first() =~= orig.skip(k0 + 1));
            }
        }
        proof {
            let kf: int = choose|k: int| 0 <= k <= orig.len() && self.entries() == orig.skip(k);
            assert(self.entries().len() == orig.len() - kf);
            assert(kf == orig.len() - keep);
        }
    }

    /// Record this frame's delta; a saturated ring forgets its oldest.
    pub fn record(&mut self, delta: Vec2)
        ensures
            old(self).entries().len() < 10 ==> final(self).entries() == old(self).entries().push(
                (delta.x.raw, delta.y.raw),
            ),
            old(self).entries().len() >= 10 ==> final(self).entries() == old(
                self,
            ).entries().drop_first().push((delta.x.raw, delta.y.raw)),
    {
        let _ = cb_push_back(&mut self.deltas, (delta.x.raw, delta.y.raw));
    }

    /// The summed replay offset of everything recorded, oldest first,
    /// with saturating addition per axis.
    pub fn replay_offset(&self) -> (r: Vec2)
        ensures
            r.x.raw as int == replay_sum_x(self.entries()),
            r.y.raw as int == replay_sum_y(self.entries()),
    {
        let items: Vec<(i64, i64)> = cb_items(&self.deltas);
        let mut acc: Vec2 = Vec2::zero();
        let mut i: usize = 0;
        proof {
            assert(items@.take(0) =~= Seq::<(i64, i64)>::empty());
        }
        while i < items.len()
            invariant
                i <= items@.len(),
                items@ == self.entries(),
                acc.x.raw as int == replay_sum_x(items@.take(i as int)),
                acc.y.raw as int == replay_sum_y(items@.take(i as int)),
            decreases items@.len() - i,
        {
            let entry: (i64, i64) = items[i];
            acc = acc.add(Vec2::new(Fx { raw: entry.0 }, Fx { raw: entry.1 }));
            i = i + 1;
            proof {
                assert(items@.take(i as int).drop_last() =~= items@.take(i as int - 1));
            }
        }
        proof {
            assert(items@.take(items@.len() as int) =~= items@);
        }
        acc
    }

    /// Forget every recorded delta.
    pub fn clear(&mut self)
        ensures
            final(self).entries().len() == 0,
    {
        cb_clear(&mut self.deltas);
    }

    /// Wind the ring down once dragging has stopped: while deltas
    /// remain, a zero delta is recorded behind them (a saturated ring
    /// drops its oldest delta to make room), their sum is replayed one
    /// last time, and a sum of exactly zero drains the ring. An already
    /// empty ring yields nothing.
    pub fn settle(&mut self) -> (r: Option<Vec2>)
        ensures
            old(self).entries().len() == 0 ==> r is None && final(self).entries() == old(
                self,
            ).entries(),
            old(self).entries().len() > 0 ==> ({
                let pushed: Seq<(i64, i64)> = if old(self).entries().len() >= 10 {
                    old(self).entries().drop_first().push((0i64, 0i64))
                } else {
                    old(self).entries().push((0i64, 0i64))
                };
                let off_x = replay_sum_x(pushed);
                let off_y = replay_sum_y(pushed);
                &&& r == Some((Vec2 { x: Fx { raw: off_x as i64 }, y: Fx { raw: off_y as i64 } }))
                &&& (off_x == 0 && off_y == 0 ==> final(self).entries().len() == 0)
                &&& (!(off_x == 0 && off_y == 0) ==> final(self).entries() == pushed)
            }),
    {
        if self.len() > 0 {
            self.record(Vec2::zero());
            let offset: Vec2 = self.replay_offset();
            if offset.x.raw == 0 && offset.y.raw == 0 {
                self.clear();
            }
            Some(offset)
        } else {
            None
        }
    }
}

} // verus!
