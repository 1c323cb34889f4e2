//! Read buffers with two watermarks. A buffer of fixed capacity knows how many
//! of its bytes are filled (valid data handed over by a stream) and how many
//! are initialized (written at least once). Filled bytes are always
//! initialized; bytes past the filled mark are never reported as data.

use vstd::prelude::*;
use vstd::slice::*;

verus! {

/// What a read buffer is, seen from outside.
pub struct ReadBufView {
    /// The valid data, in the order it arrived.
    pub filled: Seq<u8>,
    /// How many leading bytes have been written at least once.
    pub init: nat,
    /// The fixed size of the buffer.
    pub capacity: nat,
}

/// The initialized mark after the bytes up to `end` have been written: it
/// only ever rises.
pub open spec fn raised_to(init: int, end: int) -> int {
    if end > init {
        end
    } else {
        init
    }
}

/// A buffer that a readiness-driven read fills from the front.
#[derive(Debug)]
pub struct ReadBuf {
    store: Vec<u8>,
    filled: usize,
    init: usize,
}

impl View for ReadBuf {
    type V = ReadBufView;

    closed spec fn view(&self) -> ReadBufView {
        ReadBufView {
            filled: self.store@.subrange(0, self.filled as int),
            init: self.init as nat,
            capacity: self.store@.len(),
        }
    }
}

impl ReadBuf {
    /// The watermarks are in order: filled, then initialized, then capacity.
    pub closed spec fn wf(&self) -> bool {
        self.filled <= self.init <= self.store@.len() <= usize::MAX
    }

    /// The bytes after the filled mark that the buffer's memory currently
    /// holds. They are no data until a read moves the filled mark over them.
    pub closed spec fn scratch(&self) -> Seq<u8> {
        self.store@.subrange(self.filled as int, self.store@.len() as int)
    }

    /// What the watermarks of a well-formed buffer always satisfy.
    pub proof fn lemma_bounds(&self)
        requires
            self.wf(),
        ensures
            self@.filled.len() <= self@.init <= self@.capacity <= usize::MAX,
            self.scratch().len() == self@.capacity - self@.filled.len(),
    {
    }

    /// A buffer over `capacity` bytes of which none is filled or initialized.
    pub fn uninit(capacity: usize) -> (buf: ReadBuf)
        ensures
            buf.wf(),
            buf@.filled == Seq::<u8>::empty(),
            buf@.init == 0,
            buf@.capacity == capacity,
    {
        let mut store: Vec<u8> = Vec::new();
        store.resize(capacity, 0u8);
        ReadBuf { store, filled: 0, init: 0 }
    }

    /// A buffer over `capacity` zeroed bytes: all initialized, none filled.
    pub fn new(capacity: usize) -> (buf: ReadBuf)
        ensures
            buf.wf(),
            buf@.filled == Seq::<u8>::empty(),
            buf@.init == capacity,
            buf@.capacity == capacity,
    {
        let mut store: Vec<u8> = Vec::new();
        store.resize(capacity, 0u8);
        ReadBuf { store, filled: 0, init: capacity }
    }

    pub fn capacity(&self) -> (n: usize)
        ensures
            n == self@.capacity,
    {
        self.store.len()
    }

    /// The valid data.
    pub fn filled(&self) -> (data: &[u8])
        requires
            self.wf(),
        ensures
            data@ == self@.filled,
    {
        slice_subrange(self.store.as_slice(), 0, self.filled)
    }

    pub fn filled_len(&self) -> (n: usize)
        requires
            self.wf(),
        ensures
            n == self@.filled.len(),
    {
        self.filled
    }

    pub fn initialized_len(&self) -> (n: usize)
        ensures
            n == self@.init,
    {
        self.init
    }

    /// How many bytes may still be filled.
    pub fn remaining(&self) -> (n: usize)
        requires
            self.wf(),
        ensures
            n == self@.capacity - self@.filled.len(),
    {
        self.store.len() - self.filled
    }

    /// Forgets the data; what was initialized stays so.
    pub fn clear(&mut self)
        requires
            old(self).wf(),
        ensures
            final(self).wf(),
            final(self)@.filled == Seq::<u8>::empty(),
            final(self)@.init == old(self)@.init,
            final(self)@.capacity == old(self)@.capacity,
    {
        self.filled = 0;
    }

    /// Writes `src` into the memory right after the filled mark and moves no
    /// mark: the bytes are in place, but not yet data.
    pub fn write_unfilled(&mut self, src: &[u8])
        requires
            old(self).wf(),
            src@.len() <= old(self)@.capacity - old(self)@.filled.len(),
        ensures
            final(self).wf(),
            final(self)@ == old(self)@,
            final(self).scratch().subrange(0, src@.len() as int) == src@,
    {
        let base: usize = self.filled;
        let cap: usize = self.store.len();
        let mut i: usize = 0;
        while i < src.len()
            invariant
                base == self.filled,
                cap == self.store@.len(),
                self.filled == old(self).filled,
                self.init == old(self).init,
                self.store@.len() == old(self).store@.len(),
                self.filled <= self.init <= self.store@.len(),
                base + src@.len() <= self.store@.len(),
                i <= src@.len(),
                self.store@.subrange(0, base as int) == old(self).store@.subrange(0, base as int),
                self.store@.subrange(base as int, base + i) == src@.subrange(0, i as int),
            decreases src@.len() - i,
        {
            let ghost before = self.store@;
            self.store.set(base + i, src[i]);
            assert(self.store@.subrange(0, base as int) =~= before.subrange(0, base as int));
            assert(self.store@.subrange(base as int, base + i + 1) =~= src@.subrange(
                0,
                i + 1,
            )) by {
                assert forall|j: int| 0 <= j < i + 1 implies self.store@.subrange(
                    base as int,
                    base + i + 1,
                )[j] == src@[j] by {
                    if j < i {
                        assert(before.subrange(base as int, base + i)[j] == src@.subrange(
                            0,
                            i as int,
                        )[j]);
                    }
                }
            }
            i = i + 1;
        }
        assert(src@.subrange(0, src@.len() as int) =~= src@);
        assert(self.scratch().subrange(0, src@.len() as int) =~= self.store@.subrange(
            base as int,
            base + src@.len(),
        ));
    }

    /// Declares the `n` bytes after the filled mark initialized.
    pub fn assume_init(&mut self, n: usize)
        requires
            old(self).wf(),
            n <= old(self)@.capacity - old(self)@.filled.len(),
        ensures
            final(self).wf(),
            final(self)@.filled == old(self)@.filled,
            final(self)@.capacity == old(self)@.capacity,
            final(self)@.init == raised_to(
                old(self)@.init as int,
                old(self)@.filled.len() + n,
            ),
            final(self).scratch() == old(self).scratch(),
    {
        let cap: usize = self.store.len();
        let end: usize = self.filled + n;
        if end > self.init {
            self.init = end;
        }
    }

    /// Moves the filled mark to `n`, which may not pass the initialized mark.
    /// Moving it forward turns the bytes it passes over into data.
    pub fn set_filled(&mut self, n: usize)
        requires
            old(self).wf(),
            n <= old(self)@.init,
        ensures
            final(self).wf(),
            final(self)@.init == old(self)@.init,
            final(self)@.capacity == old(self)@.capacity,
            final(self)@.filled.len() == n,
            n >= old(self)@.filled.len() ==> final(self)@.filled == old(self)@.filled
                + old(self).scratch().subrange(0, n - old(self)@.filled.len()),
            n <= old(self)@.filled.len() ==> final(self)@.filled == old(self)@.filled.subrange(
                0,
                n as int,
            ),
    {
        let ghost was: int = self.filled as int;
        self.filled = n;
        proof {
            if n >= was {
                assert(self.store@.subrange(0, n as int) =~= self.store@.subrange(0, was)
                    + self.store@.subrange(was, self.store@.len() as int).subrange(0, n - was));
            } else {
                assert(self.store@.subrange(0, n as int) =~= self.store@.subrange(
                    0,
                    was,
                ).subrange(0, n as int));
            }
        }
    }

    /// Moves the filled mark `n` bytes forward, within what is initialized.
    pub fn advance(&mut self, n: usize)
        requires
            old(self).wf(),
            old(self)@.filled.len() + n <= old(self)@.init,
        ensures
            final(self).wf(),
            final(self)@.init == old(self)@.init,
            final(self)@.capacity == old(self)@.capacity,
            final(self)@.filled == old(self)@.filled + old(self).scratch().subrange(0, n as int),
    {
        let to: usize = self.filled + n;
        self.set_filled(to);
    }

    /// Appends `src` to the data. It must fit in what remains.
    pub fn put_slice(&mut self, src: &[u8])
        requires
            old(self).wf(),
            src@.len() <= old(self)@.capacity - old(self)@.filled.len(),
        ensures
            final(self).wf(),
            final(self)@.filled == old(self)@.filled + src@,
            final(self)@.capacity == old(self)@.capacity,
            final(self)@.init == raised_to(
                old(self)@.init as int,
                (old(self)@.filled.len() + src@.len()) as int,
            ),
    {
        self.write_unfilled(src);
        self.assume_init(src.len());
        self.advance(src.len());
    }
}

/// A write cursor over a read buffer: it tells how much may still be written
/// and takes bytes at the filled mark, but hands out nothing of what the
/// buffer already holds.
#[derive(Debug)]
pub struct ReadBufCursor {
    buf: ReadBuf,
}

impl View for ReadBufCursor {
    type V = ReadBufView;

    closed spec fn view(&self) -> ReadBufView {
        self.buf@
    }
}

impl ReadBufCursor {
    pub closed spec fn wf(&self) -> bool {
        self.buf.wf()
    }

    /// The bytes after the filled mark that the buffer's memory currently
    /// holds.
    pub closed spec fn scratch(&self) -> Seq<u8> {
        self.buf.scratch()
    }

    /// A cursor at the filled mark of `buf`.
    pub fn over(buf: ReadBuf) -> (cursor: ReadBufCursor)
        requires
            buf.wf(),
        ensures
            cursor.wf(),
            cursor@ == buf@,
            cursor.scratch() == buf.scratch(),
    {
        ReadBufCursor { buf }
    }

    /// Gives the buffer back, with all that was written through the cursor.
    pub fn into_buf(self) -> (buf: ReadBuf)
        requires
            self.wf(),
        ensures
            buf.wf(),
            buf@ == self@,
            buf.scratch() == self.scratch(),
    {
        self.buf
    }

    /// How many bytes may still be written.
    pub fn remaining(&self) -> (n: usize)
        requires
            self.wf(),
        ensures
            n == self@.capacity - self@.filled.len(),
    {
        self.buf.remaining()
    }

    /// Writes `src` into the memory at the cursor without moving it.
    pub fn write_unfilled(&mut self, src: &[u8])
        requires
            old(self).wf(),
            src@.len() <= old(self)@.capacity - old(self)@.filled.len(),
        ensures
            final(self).wf(),
            final(self)@ == old(self)@,
            final(self).scratch().subrange(0, src@.len() as int) == src@,
    {
        self.buf.write_unfilled(src);
    }

    /// Moves the cursor `n` bytes forward: the bytes it passes over become
    /// data, and count as initialized.
    pub fn advance(&mut self, n: usize)
        requires
            old(self).wf(),
            n <= old(self)@.capacity - old(self)@.filled.len(),
        ensures
            final(self).wf(),
            final(self)@.capacity == old(self)@.capacity,
            final(self)@.filled == old(self)@.filled + old(self).scratch().subrange(0, n as int),
            final(self)@.init == raised_to(
                old(self)@.init as int,
                old(self)@.filled.len() + n,
            ),
    {
        self.buf.assume_init(n);
        self.buf.advance(n);
    }

    /// Writes `src` at the cursor and moves the cursor past it.
    pub fn put_slice(&mut self, src: &[u8])
        requires
            old(self).wf(),
            src@.len() <= old(self)@.capacity - old(self)@.filled.len(),
        ensures
            final(self).wf(),
            final(self)@.filled == old(self)@.filled + src@,
            final(self)@.capacity == old(self)@.capacity,
            final(self)@.init == raised_to(
                old(self)@.init as int,
                (old(self)@.filled.len() + src@.len()) as int,
            ),
    {
        self.buf.put_slice(src);
    }
}

} // verus!
