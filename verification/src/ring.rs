//! Single-producer single-consumer ring buffer for audio samples.
//!
//! This is the only channel between the decoder worker and the output
//! callback. Capacity is a power of two; one slot is kept empty so that a
//! full buffer can be told from an empty one, giving `capacity - 1` usable
//! slots. The two position counters wrap modulo the capacity (for a power
//! of two and positions kept reduced, `pos AND (capacity - 1)` and
//! `pos MOD capacity` are the same index; the code keeps the positions
//! reduced and wraps by a single conditional subtraction).
//!
//! The host shell shares one buffer between its two threads and relies on
//! the discipline that exactly one thread writes and exactly one reads;
//! this module establishes what each operation does to the queue's
//! contents, and carries the full history of what was ever written and
//! ever read, so that first-in first-out order is an invariant of the type.

use vstd::prelude::*;

verus! {

/// True when `n` is a power of two.
pub open spec fn is_pow2(n: nat) -> bool
    decreases n,
{
    if n == 0 {
        false
    } else if n == 1 {
        true
    } else {
        n % 2 == 0 && is_pow2(n / 2)
    }
}

/// Wrap a position in `[0, 2*cap)` back into `[0, cap)`.
pub open spec fn spec_slot(cap: int, pos: int) -> int {
    if pos >= cap {
        pos - cap
    } else {
        pos
    }
}

pub struct RingBuffer {
    buf: Vec<u32>,
    /// Next slot to write; reduced modulo the capacity.
    write_pos: usize,
    /// Next slot to read; reduced modulo the capacity.
    read_pos: usize,
    capacity: usize,
    /// Everything the producer ever got accepted, in order.
    history_in: Ghost<Seq<u32>>,
    /// Everything the consumer ever got back, in order.
    history_out: Ghost<Seq<u32>>,
}

impl RingBuffer {
    /// The fixed capacity; `capacity - 1` samples are usable.
    pub closed spec fn cap(&self) -> int {
        self.capacity as int
    }

    /// Number of samples queued and not yet read.
    pub closed spec fn used(&self) -> int {
        if self.write_pos >= self.read_pos {
            self.write_pos - self.read_pos
        } else {
            self.write_pos + self.capacity - self.read_pos
        }
    }

    /// The queued samples, oldest first.
    pub closed spec fn contents(&self) -> Seq<u32> {
        Seq::new(self.used() as nat, |j: int| self.buf@[spec_slot(self.cap(), self.read_pos + j)])
    }

    /// Everything the producer ever got accepted, in order.
    pub closed spec fn history_in(&self) -> Seq<u32> {
        self.history_in@
    }

    /// Everything the consumer ever got back, in order.
    pub closed spec fn history_out(&self) -> Seq<u32> {
        self.history_out@
    }

    /// Well-formedness: reduced positions, at least one empty slot, and the
    /// accounting identity that ties the histories to the queue.
    pub closed spec fn wf(&self) -> bool {
        &&& self.buf@.len() == self.capacity
        &&& is_pow2(self.capacity as nat)
        &&& self.capacity <= usize::MAX / 2
        &&& self.write_pos < self.capacity
        &&& self.read_pos < self.capacity
        &&& self.history_in@ == self.history_out@ + self.contents()
    }

    /// Samples available to read right now.
    pub open spec fn available_read_spec(&self) -> int {
        self.contents().len() as int
    }

    /// Samples that a write could accept right now.
    pub open spec fn available_write_spec(&self) -> int {
        self.cap() - 1 - self.contents().len()
    }

    /// A new buffer of the given power-of-two capacity, all slots zeroed,
    /// with nothing queued and empty histories. The bound on the capacity
    /// only keeps the index arithmetic within the machine word.
    pub fn new(capacity: usize) -> (r: RingBuffer)
        requires
            is_pow2(capacity as nat),
            capacity <= usize::MAX / 2,
        ensures
            r.wf(),
            r.cap() == capacity,
            r.contents() == Seq::<u32>::empty(),
            r.history_in() == Seq::<u32>::empty(),
            r.history_out() == Seq::<u32>::empty(),
    {
        let mut buf: Vec<u32> = Vec::new();
        let mut i: usize = 0;
        while i < capacity
            invariant
                i <= capacity,
                buf@.len() == i,
            decreases capacity - i,
        {
            buf.push(0u32);
            i = i + 1;
        }
        let r = RingBuffer {
            buf,
            write_pos: 0,
            read_pos: 0,
            capacity,
            history_in: Ghost(Seq::empty()),
            history_out: Ghost(Seq::empty()),
        };
        proof {
            assert(r.contents() =~= Seq::<u32>::empty());
            assert(r.history_in@ =~= r.history_out@ + r.contents());
        }
        r
    }

    /// Producer side. Copies the longest prefix of `data` that fits and
    /// returns its length; never more than `available_write`, so no unread
    /// slot is ever overwritten (the old contents stay queued, in order,
    /// ahead of the new samples). Never blocks.
    pub fn write(&mut self, data: &Vec<u32>) -> (n: usize)
        requires
            old(self).wf(),
        ensures
            final(self).wf(),
            final(self).cap() == old(self).cap(),
            n == vstd::math::min(data@.len() as int, old(self).available_write_spec()),
            final(self).contents() == old(self).contents() + data@.take(n as int),
            final(self).history_in() == old(self).history_in() + data@.take(n as int),
            final(self).history_out() == old(self).history_out(),
    {
        let write = self.write_pos;
        let read = self.read_pos;
        let used = if write >= read {
            write - read
        } else {
            write + self.capacity - read
        };
        let available = self.capacity - 1 - used;
        let to_write = if data.len() < available {
            data.len()
        } else {
            available
        };

        let ghost old_self = *self;
        let mut i: usize = 0;
        while i < to_write
            invariant
                old_self.wf(),
                to_write <= old_self.available_write_spec(),
                to_write <= data@.len(),
                i <= to_write,
                self.capacity == old_self.capacity,
                self.write_pos == old_self.write_pos,
                self.read_pos == old_self.read_pos,
                self.history_in == old_self.history_in,
                self.history_out == old_self.history_out,
                self.buf@.len() == self.capacity,
                used == old_self.used(),
                write == self.write_pos,
                read == self.read_pos,
                forall|j: int|
                    0 <= j < used ==> self.buf@[spec_slot(self.cap(), read + j)]
                        == old_self.contents()[j],
                forall|j: int|
                    0 <= j < i ==> self.buf@[spec_slot(self.cap(), spec_slot(self.cap(), write + j))]
                        == data@[j],
            decreases to_write - i,
        {
            let pos = write + i;
            let idx = if pos >= self.capacity {
                pos - self.capacity
            } else {
                pos
            };
            let ghost prev_buf = self.buf@;
            self.buf.set(idx, data[i]);
            proof {
                assert forall|j: int| 0 <= j < used implies self.buf@[spec_slot(
                    self.cap(),
                    read + j,
                )] == old_self.contents()[j] by {
                    let rj = spec_slot(self.cap(), read + j);
                    assert(spec_slot(self.cap(), spec_slot(self.cap(), write + i as int)) != rj);
                }
            }
            i = i + 1;
        }

        let new_write = if write + to_write >= self.capacity {
            write + to_write - self.capacity
        } else {
            write + to_write
        };
        self.write_pos = new_write;
        proof {
            let c = self.cap();
            assert forall|j: int| 0 <= j < used + to_write implies self.buf@[spec_slot(
                c,
                read + j,
            )] == (old_self.contents() + data@.take(to_write as int))[j] by {
                if j >= used {
                    assert(spec_slot(c, read + j) == spec_slot(
                        c,
                        spec_slot(c, write + (j - used)),
                    ));
                }
            }
            assert(self.contents() =~= old_self.contents() + data@.take(to_write as int));
        }
        self.history_in = Ghost(self.history_in@ + data@.take(to_write as int));
        proof {
            assert(self.history_in@ =~= self.history_out@ + self.contents());
        }
        to_write
    }

    /// Consumer side. Fills a prefix of `out` with up to `out.len()` queued
    /// samples, leaves the rest of `out` untouched, and returns how many it
    /// copied. Returns 0 when the buffer is empty. Never blocks.
    pub fn read(&mut self, out: &mut Vec<u32>) -> (n: usize)
        requires
            old(self).wf(),
        ensures
            final(self).wf(),
            final(self).cap() == old(self).cap(),
            n == vstd::math::min(old(out)@.len() as int, old(self).contents().len() as int),
            final(out)@.len() == old(out)@.len(),
            final(out)@.take(n as int) == old(self).contents().take(n as int),
            final(out)@.skip(n as int) == old(out)@.skip(n as int),
            final(self).contents() == old(self).contents().skip(n as int),
            final(self).history_in() == old(self).history_in(),
            final(self).history_out() == old(self).history_out() + old(self).contents().take(
                n as int,
            ),
    {
        let write = self.write_pos;
        let read = self.read_pos;
        let available = if write >= read {
            write - read
        } else {
            write + self.capacity - read
        };
        let to_read = if out.len() < available {
            out.len()
        } else {
            available
        };

        let ghost old_self = *self;
        let ghost old_out = out@;
        let mut i: usize = 0;
        while i < to_read
            invariant
                old_self.wf(),
                to_read <= old_self.contents().len(),
                to_read <= old_out.len(),
                i <= to_read,
                *self == old_self,
                read == self.read_pos,
                out@.len() == old_out.len(),
                forall|j: int| 0 <= j < i ==> out@[j] == old_self.contents()[j],
                forall|j: int| i <= j < old_out.len() ==> out@[j] == old_out[j],
            decreases to_read - i,
        {
            let pos = read + i;
            let idx = if pos >= self.capacity {
                pos - self.capacity
            } else {
                pos
            };
            let v = self.buf[idx];
            out.set(i, v);
            i = i + 1;
        }

        let new_read = if read + to_read >= self.capacity {
            read + to_read - self.capacity
        } else {
            read + to_read
        };
        self.read_pos = new_read;
        self.history_out = Ghost(self.history_out@ + old_self.contents().take(to_read as int));
        proof {
            let c = self.cap();
            assert forall|j: int| 0 <= j < self.used() implies #[trigger] self.buf@[spec_slot(
                c,
                new_read + j,
            )] == old_self.contents()[to_read + j] by {
                assert(spec_slot(c, new_read + j) == spec_slot(
                    c,
                    spec_slot(c, read + (to_read + j)),
                ));
            }
            assert(self.contents() =~= old_self.contents().skip(to_read as int));
            assert(self.history_in@ =~= self.history_out@ + self.contents());
            assert(out@.take(to_read as int) =~= old_self.contents().take(to_read as int));
            assert(out@.skip(to_read as int) =~= old_out.skip(to_read as int));
        }
        to_read
    }

    /// Snapshot of how many samples are queued.
    pub fn available_read(&self) -> (n: usize)
        requires
            self.wf(),
        ensures
            n == self.available_read_spec(),
    {
        let write = self.write_pos;
        let read = self.read_pos;
        if write >= read {
            write - read
        } else {
            write + self.capacity - read
        }
    }

    /// Snapshot of how many samples a write could accept.
    pub fn available_write(&self) -> (n: usize)
        requires
            self.wf(),
        ensures
            n == self.available_write_spec(),
    {
        let write = self.write_pos;
        let read = self.read_pos;
        let used = if write >= read {
            write - read
        } else {
            write + self.capacity - read
        };
        self.capacity - 1 - used
    }

    /// Reset both positions, discarding anything queued. Only for stop and
    /// seek points, when neither producer nor consumer is active; the
    /// histories restart with the queue.
    pub fn clear(&mut self)
        requires
            old(self).wf(),
        ensures
            final(self).wf(),
            final(self).cap() == old(self).cap(),
            final(self).contents() == Seq::<u32>::empty(),
            final(self).history_in() == Seq::<u32>::empty(),
            final(self).history_out() == Seq::<u32>::empty(),
    {
        self.write_pos = 0;
        self.read_pos = 0;
        self.history_in = Ghost(Seq::empty());
        self.history_out = Ghost(Seq::empty());
        proof {
            assert(self.contents() =~= Seq::<u32>::empty());
            assert(self.history_in@ =~= self.history_out@ + self.contents());
        }
    }
}

/// First-in first-out: at every point, what the consumer has read so far is
/// exactly a prefix of what the producer has written so far. Together with
/// the contracts of `write` and `read` (each call appends to the matching
/// history) this is the FIFO law for any interleaving of writes and reads.
pub proof fn lemma_ring_fifo(rb: &RingBuffer)
    requires
        rb.wf(),
    ensures
        rb.history_out().is_prefix_of(rb.history_in()),
        rb.history_in() == rb.history_out() + rb.contents(),
{
    assert(rb.history_out() =~= rb.history_in().take(rb.history_out().len() as int));
}

/// What one consumer step emits is exactly the next contiguous slice of
/// everything the producer ever wrote: `before` and `after` are the ring
/// around any call that extended the consumer history by `emitted` without
/// touching the producer history (a `read`, or a bit-perfect callback).
/// With the render plan's passthrough guarantee, this is the bit-perfect
/// law: the emitted samples are the decoder's own, in order, bit for bit.
pub proof fn lemma_ring_emits_in_order(before: &RingBuffer, after: &RingBuffer, emitted: Seq<u32>)
    requires
        before.wf(),
        after.wf(),
        after.history_in() == before.history_in(),
        after.history_out() == before.history_out() + emitted,
    ensures
        emitted == before.history_in().subrange(
            before.history_out().len() as int,
            before.history_out().len() as int + emitted.len() as int,
        ),
{
    assert(emitted =~= before.history_in().subrange(
        before.history_out().len() as int,
        before.history_out().len() as int + emitted.len() as int,
    ));
}

/// Accounting: the readable and writable counts always sum to one less
/// than the capacity (one slot is kept empty to tell full from empty).
pub proof fn lemma_ring_accounting(rb: &RingBuffer)
    requires
        rb.wf(),
    ensures
        rb.available_read_spec() + rb.available_write_spec() == rb.cap() - 1,
        1 <= rb.cap() <= usize::MAX / 2,
{
}

} // verus!
