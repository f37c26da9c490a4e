use vstd::prelude::*;

verus! {

/// The size in bytes of a pool that was never resized.
pub const INITIAL_POOL_SIZE: usize = 128;

/// One of the two pools of a `DoubleMemPool`.
#[derive(Clone, Copy, Debug, PartialEq, Eq, Structural)]
pub enum PoolSlot {
    First,
    Second,
}

/// The pool that an acquisition hands out to be written, given the switch
/// as it stood before the call.
pub open spec fn current_slot(switch: bool) -> PoolSlot {
    if switch {
        PoolSlot::First
    } else {
        PoolSlot::Second
    }
}

/// The pool that an acquisition hands out to be read, given the switch as it
/// stood before the call.
pub open spec fn previous_slot(switch: bool) -> PoolSlot {
    if switch {
        PoolSlot::Second
    } else {
        PoolSlot::First
    }
}

/// The number of whole pixels that `bytes` bytes take.
pub open spec fn pixels_for(bytes: int) -> int {
    (bytes + 3) / 4
}

/// A pool of pixel storage that is shared with the display server. The pool
/// only grows. It counts the buffers that the server holds over it: while
/// that count is not zero, the server may still read the pixels.
pub struct MemPool {
    mmap: Vec<u32>,
    buffer_count: u32,
}

impl MemPool {
    /// The pixels of the pool.
    pub closed spec fn pixels(&self) -> Seq<u32> {
        self.mmap@
    }

    /// How many buffers over this pool the display server holds.
    pub closed spec fn buffers(&self) -> nat {
        self.buffer_count as nat
    }

    /// Whether the display server holds a buffer over this pool.
    pub open spec fn spec_is_used(&self) -> bool {
        self.buffers() != 0
    }

    /// A pool of `INITIAL_POOL_SIZE` bytes, all zero, that the server holds
    /// no buffer of.
    pub fn new() -> (p: MemPool)
        ensures
            p.pixels() == Seq::new(pixels_for(INITIAL_POOL_SIZE as int) as nat, |i: int| 0u32),
            p.buffers() == 0,
    {
        let mut mmap: Vec<u32> = Vec::new();
        let mut i: usize = 0;
        while i < INITIAL_POOL_SIZE / 4
            invariant
                i <= INITIAL_POOL_SIZE / 4,
                mmap@ == Seq::new(i as nat, |i: int| 0u32),
            decreases INITIAL_POOL_SIZE / 4 - i,
        {
            mmap.push(0);
            i = i + 1;
        }
        MemPool { mmap, buffer_count: 0 }
    }

    /// Grows the pool to hold `newsize` bytes, rounded up to whole pixels.
    /// The pixels it held stay, the new ones are zero. A pool that is large
    /// enough already is left as it is.
    pub fn resize(&mut self, newsize: usize)
        ensures
            final(self).buffers() == old(self).buffers(),
            pixels_for(newsize as int) <= old(self).pixels().len() ==> final(self).pixels() == old(
                self,
            ).pixels(),
            pixels_for(newsize as int) > old(self).pixels().len() ==> final(self).pixels() == old(
                self,
            ).pixels() + Seq::new(
                (pixels_for(newsize as int) - old(self).pixels().len()) as nat,
                |i: int| 0u32,
            ),
    {
        let wanted: usize = newsize / 4 + if newsize % 4 == 0 {
            0
        } else {
            1
        };
        let ghost before = self.mmap@;
        while self.mmap.len() < wanted
            invariant
                self.buffer_count == old(self).buffer_count,
                wanted == pixels_for(newsize as int),
                before == old(self).mmap@,
                before.len() <= self.mmap@.len(),
                self.mmap@.len() <= wanted || self.mmap@.len() == before.len(),
                self.mmap@ == before + Seq::new(
                    (self.mmap@.len() - before.len()) as nat,
                    |i: int| 0u32,
                ),
            decreases wanted - self.mmap.len(),
        {
            self.mmap.push(0);
        }
        assert(self.mmap@.len() == before.len() ==> self.mmap@ =~= before);
    }

    /// The pixels of the pool, to be written.
    pub fn mmap(&mut self) -> (m: &mut Vec<u32>)
        ensures
            m@ == old(self).pixels(),
            final(self).pixels() == final(m)@,
            final(self).buffers() == old(self).buffers(),
    {
        &mut self.mmap
    }

    /// The pixels of the pool, to be read.
    pub fn as_slice(&self) -> (m: &Vec<u32>)
        ensures
            m@ == self.pixels(),
    {
        &self.mmap
    }

    /// The number of pixels that the pool holds.
    pub fn size(&self) -> (n: usize)
        ensures
            n == self.pixels().len(),
    {
        self.mmap.len()
    }

    /// Records that a buffer over this pool was handed to the display
    /// server.
    pub fn buffer(&mut self)
        requires
            old(self).buffers() < u32::MAX,
        ensures
            final(self).buffers() == old(self).buffers() + 1,
            final(self).pixels() == old(self).pixels(),
    {
        self.buffer_count = self.buffer_count + 1;
    }

    /// Records that the display server released a buffer over this pool.
    /// Returns whether that left the pool free.
    pub fn release(&mut self) -> (free: bool)
        ensures
            final(self).buffers() == if old(self).buffers() > 0 {
                old(self).buffers() - 1
            } else {
                0
            },
            final(self).pixels() == old(self).pixels(),
            free == (old(self).buffers() == 1),
    {
        if self.buffer_count > 0 {
            self.buffer_count = self.buffer_count - 1;
            self.buffer_count == 0
        } else {
            false
        }
    }

    /// Whether the display server still holds a buffer over this pool.
    pub fn is_used(&self) -> (used: bool)
        ensures
            used == self.spec_is_used(),
    {
        self.buffer_count != 0
    }
}

/// Two pools that take turns: one is written while the display server may
/// still read the other.
pub struct DoubleMemPool {
    pool1: MemPool,
    pool2: MemPool,
    switch: bool,
}

impl DoubleMemPool {
    pub closed spec fn first(&self) -> MemPool {
        self.pool1
    }

    pub closed spec fn second(&self) -> MemPool {
        self.pool2
    }

    /// The pool in `slot`.
    pub open spec fn slot(&self, slot: PoolSlot) -> MemPool {
        match slot {
            PoolSlot::First => self.first(),
            PoolSlot::Second => self.second(),
        }
    }

    /// Which way the next acquisition goes: see `current_slot`.
    pub closed spec fn switched(&self) -> bool {
        self.switch
    }

    /// Two fresh pools; the first acquisition hands out the second of them
    /// to be written.
    pub fn new() -> (p: DoubleMemPool)
        ensures
            !p.switched(),
            p.first().pixels() == Seq::new(
                pixels_for(INITIAL_POOL_SIZE as int) as nat,
                |i: int| 0u32,
            ),
            p.second().pixels() == p.first().pixels(),
            p.first().buffers() == 0,
            p.second().buffers() == 0,
    {
        DoubleMemPool { pool1: MemPool::new(), pool2: MemPool::new(), switch: false }
    }

    /// Hands out the pool that was current at the last call, to be read, and
    /// the other one, to be written. Every call turns the switch, also one
    /// that hands out nothing: that happens when the pool whose turn it is
    /// to be written is still held by the display server.
    pub fn pool(&mut self) -> (r: Option<(&mut MemPool, &mut MemPool)>)
        ensures
            final(self).switched() == !old(self).switched(),
            r is Some <==> !old(self).slot(current_slot(old(self).switched())).spec_is_used(),
            match r {
                Some((last, cur)) => {
                    &&& *last == old(self).slot(previous_slot(old(self).switched()))
                    &&& *cur == old(self).slot(current_slot(old(self).switched()))
                    &&& final(self).slot(previous_slot(old(self).switched())) == *final(last)
                    &&& final(self).slot(current_slot(old(self).switched())) == *final(cur)
                },
                None => {
                    &&& final(self).first() == old(self).first()
                    &&& final(self).second() == old(self).second()
                },
            },
    {
        let switch = self.switch;
        self.switch = !self.switch;
        let (last, cur) = if switch {
            (&mut self.pool2, &mut self.pool1)
        } else {
            (&mut self.pool1, &mut self.pool2)
        };
        if cur.is_used() {
            None
        } else {
            Some((last, cur))
        }
    }

    /// The slot that the next acquisition hands out to be written.
    pub fn next_slot(&self) -> (s: PoolSlot)
        ensures
            s == current_slot(self.switched()),
    {
        if self.switch {
            PoolSlot::First
        } else {
            PoolSlot::Second
        }
    }

    /// The pool in `slot`, to be read.
    pub fn get(&self, slot: PoolSlot) -> (p: &MemPool)
        ensures
            *p == self.slot(slot),
    {
        match slot {
            PoolSlot::First => &self.pool1,
            PoolSlot::Second => &self.pool2,
        }
    }

    /// Records that the display server released a buffer over the pool in
    /// `slot`. Returns whether that left the pool free.
    pub fn release(&mut self, slot: PoolSlot) -> (free: bool)
        ensures
            final(self).switched() == old(self).switched(),
            final(self).slot(slot).pixels() == old(self).slot(slot).pixels(),
            final(self).slot(slot).buffers() == if old(self).slot(slot).buffers() > 0 {
                old(self).slot(slot).buffers() - 1
            } else {
                0
            },
            free == (old(self).slot(slot).buffers() == 1),
            slot == PoolSlot::First ==> final(self).second() == old(self).second(),
            slot == PoolSlot::Second ==> final(self).first() == old(self).first(),
    {
        match slot {
            PoolSlot::First => self.pool1.release(),
            PoolSlot::Second => self.pool2.release(),
        }
    }
}

/// The switch as it stands before the `n`-th acquisition, counted from 0,
/// when it stood at `switch` before the first.
pub open spec fn switch_at(switch: bool, n: nat) -> bool {
    if n % 2 == 0 {
        switch
    } else {
        !switch
    }
}

/// Acquisitions take the two pools in turn: whatever the switch stood at
/// before the first, the pool that the `n + 1`-th hands out to be written is
/// not the one that the `n`-th handed out to be written, and the pool that
/// it hands out to be read is that one.
pub proof fn lemma_round_robin(switch: bool, n: nat)
    ensures
        switch_at(switch, n + 1) == !switch_at(switch, n),
        current_slot(switch_at(switch, n + 1)) != current_slot(switch_at(switch, n)),
        previous_slot(switch_at(switch, n + 1)) == current_slot(switch_at(switch, n)),
        current_slot(switch_at(switch, n + 2)) == current_slot(switch_at(switch, n)),
{
}

} // verus!
