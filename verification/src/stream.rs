//! The two families of non-blocking byte-stream interfaces that the adapter
//! bridges. The readiness-driven family reads into a buffer with watermarks;
//! the cursor-driven family reads through a write cursor. Their write sides
//! have the same shape. All of them speak of one model of a stream: the bytes
//! it has handed to readers and the bytes it has taken from writers, each in
//! order.

use vstd::prelude::*;
use crate::buffer::ReadBuf;
use crate::buffer::ReadBufCursor;

verus! {

/// A failure of the underlying stream, passed on as it came.
#[derive(Clone, Copy, Debug, PartialEq, Eq, Structural)]
pub struct IoFailure {
    pub code: i32,
}

/// The outcome of one non-blocking attempt.
#[derive(Debug, PartialEq, Eq, Structural)]
pub enum Poll<T> {
    /// The attempt is over, with this result.
    Ready(T),
    /// The stream is not ready; try again later. This is no error.
    Pending,
}

/// Whether `after` is `before` with something appended.
pub open spec fn extends(before: Seq<u8>, after: Seq<u8>) -> bool {
    before.len() <= after.len() && after.subrange(0, before.len() as int) == before
}

/// What `after` holds beyond `before`.
pub open spec fn appended(before: Seq<u8>, after: Seq<u8>) -> Seq<u8> {
    after.subrange(before.len() as int, after.len() as int)
}

/// What one read does to a buffer's data and to the stream's record of what
/// it delivered. A completed read appends the same bytes to both; any other
/// outcome leaves both as they were.
pub open spec fn read_effect(
    r: Poll<Result<(), IoFailure>>,
    filled_before: Seq<u8>,
    filled_after: Seq<u8>,
    delivered_before: Seq<u8>,
    delivered_after: Seq<u8>,
) -> bool {
    if r == Poll::Ready(Ok::<(), IoFailure>(())) {
        &&& extends(filled_before, filled_after)
        &&& delivered_after == delivered_before + appended(filled_before, filled_after)
    } else {
        &&& filled_after == filled_before
        &&& delivered_after == delivered_before
    }
}

/// A run of reads on one buffer: `filled[i]` and `delivered[i]` are the
/// buffer's data and the stream's record before read `i`, and the last entry
/// of each is what they are after the last read.
pub open spec fn read_run(
    outcomes: Seq<Poll<Result<(), IoFailure>>>,
    filled: Seq<Seq<u8>>,
    delivered: Seq<Seq<u8>>,
) -> bool {
    &&& filled.len() == outcomes.len() + 1
    &&& delivered.len() == outcomes.len() + 1
    &&& forall|i: int|
        0 <= i < outcomes.len() ==> read_effect(
            #[trigger] outcomes[i],
            filled[i],
            filled[i + 1],
            delivered[i],
            delivered[i + 1],
        )
}

/// Over any run of reads, however the stream cuts its bytes into chunks and
/// however often it is not ready or fails in between, the buffer's data grows
/// by exactly the bytes that the stream delivered, in their order: never by
/// more, never by others.
pub proof fn lemma_reads_accumulate(
    outcomes: Seq<Poll<Result<(), IoFailure>>>,
    filled: Seq<Seq<u8>>,
    delivered: Seq<Seq<u8>>,
)
    requires
        read_run(outcomes, filled, delivered),
    ensures
        extends(filled[0], filled.last()),
        delivered.last() == delivered[0] + appended(filled[0], filled.last()),
        filled.last().len() - filled[0].len() == delivered.last().len() - delivered[0].len(),
    decreases outcomes.len(),
{
    if outcomes.len() == 0 {
        assert(appended(filled[0], filled[0]) =~= Seq::<u8>::empty());
        assert(delivered[0] + Seq::<u8>::empty() =~= delivered[0]);
        assert(filled[0].subrange(0, filled[0].len() as int) =~= filled[0]);
    } else {
        let n = outcomes.len() as int;
        let o = outcomes.drop_last();
        let f = filled.drop_last();
        let d = delivered.drop_last();
        assert(read_run(o, f, d)) by {
            assert forall|i: int| 0 <= i < o.len() implies read_effect(
                #[trigger] o[i],
                f[i],
                f[i + 1],
                d[i],
                d[i + 1],
            ) by {
                assert(o[i] == outcomes[i]);
            }
        }
        lemma_reads_accumulate(o, f, d);
        assert(f.last() == filled[n - 1]);
        assert(d.last() == delivered[n - 1]);
        assert(read_effect(outcomes[n - 1], filled[n - 1], filled[n], delivered[n - 1], delivered[n]));
        let a = filled[0];
        let b = filled[n - 1];
        let c = filled[n];
        if outcomes[n - 1] != Poll::Ready(Ok::<(), IoFailure>(())) {
            assert(c.subrange(0, b.len() as int) =~= b);
            assert(appended(b, c) =~= Seq::<u8>::empty());
        }
        assert(extends(b, c));
        assert(c.subrange(0, a.len() as int) =~= b.subrange(0, a.len() as int));
        assert(appended(a, c) =~= appended(a, b) + appended(b, c));
        assert(delivered[n] =~= delivered[0] + appended(a, c));
    }
}

/// What one write does to the stream's record of what it accepted. A
/// completed write of `n` bytes appends the first `n` bytes of `src`; any
/// other outcome leaves the record as it was.
pub open spec fn write_effect(
    r: Poll<Result<usize, IoFailure>>,
    src: Seq<u8>,
    accepted_before: Seq<u8>,
    accepted_after: Seq<u8>,
) -> bool {
    match r {
        Poll::Ready(Ok(n)) => {
            &&& n <= src.len()
            &&& accepted_after == accepted_before + src.subrange(0, n as int)
        },
        _ => accepted_after == accepted_before,
    }
}

/// The bytes of several buffers, one after the other.
pub open spec fn concat_all(bufs: Seq<&[u8]>) -> Seq<u8>
    decreases bufs.len(),
{
    if bufs.len() == 0 {
        Seq::<u8>::empty()
    } else {
        concat_all(bufs.drop_last()) + bufs.last()@
    }
}

/// The contents of several buffers, buffer by buffer.
pub open spec fn contents_of(bufs: Seq<&[u8]>) -> Seq<Seq<u8>> {
    Seq::new(bufs.len(), |i: int| bufs[i]@)
}

/// One call on a stream, with what it was given and how it ended.
pub enum Call {
    /// A read into so many free bytes, and its outcome.
    Read(nat, Poll<Result<(), IoFailure>>),
    /// A write of these bytes, and its outcome.
    Write(Seq<u8>, Poll<Result<usize, IoFailure>>),
    /// A write of these buffers at once, and its outcome.
    WriteVectored(Seq<Seq<u8>>, Poll<Result<usize, IoFailure>>),
    /// A flush, and its outcome.
    Flush(Poll<Result<(), IoFailure>>),
    /// A shutdown of the write side, and its outcome.
    Shutdown(Poll<Result<(), IoFailure>>),
}

/// The model that every stream interface here speaks of.
pub trait ByteStream {
    /// What the stream keeps true of itself between calls.
    spec fn inv(&self) -> bool;

    /// Every byte handed to a reader so far, in order.
    spec fn delivered(&self) -> Seq<u8>;

    /// Every byte taken from a writer so far, in order.
    spec fn accepted(&self) -> Seq<u8>;

    /// Whether the stream applies vectored writes efficiently.
    spec fn vectored(&self) -> bool;

    /// Every call made on the stream so far, in order. A wrapper around a
    /// stream has the calls of that stream: what it is asked, it asks on.
    spec fn calls(&self) -> Seq<Call>;
}

/// Readiness-driven reading: the stream fills the unfilled part of a buffer
/// and moves the buffer's marks itself.
pub trait AsyncRead: ByteStream {
    fn poll_read(&mut self, buf: &mut ReadBuf) -> (r: Poll<Result<(), IoFailure>>)
        requires
            old(self).inv(),
            old(buf).wf(),
        ensures
            final(self).inv(),
            final(buf).wf(),
            final(buf)@.capacity == old(buf)@.capacity,
            final(buf)@.init >= old(buf)@.init,
            final(self).calls() == old(self).calls().push(
                Call::Read((old(buf)@.capacity - old(buf)@.filled.len()) as nat, r),
            ),
            read_effect(
                r,
                old(buf)@.filled,
                final(buf)@.filled,
                old(self).delivered(),
                final(self).delivered(),
            ),
            final(self).accepted() == old(self).accepted(),
            final(self).vectored() == old(self).vectored(),
    ;
}

/// Cursor-driven reading: the stream writes at a cursor and advances it by
/// what it wrote.
pub trait Read: ByteStream {
    fn poll_read(&mut self, cursor: &mut ReadBufCursor) -> (r: Poll<Result<(), IoFailure>>)
        requires
            old(self).inv(),
            old(cursor).wf(),
        ensures
            final(self).inv(),
            final(cursor).wf(),
            final(cursor)@.capacity == old(cursor)@.capacity,
            final(cursor)@.init >= old(cursor)@.init,
            final(self).calls() == old(self).calls().push(
                Call::Read((old(cursor)@.capacity - old(cursor)@.filled.len()) as nat, r),
            ),
            read_effect(
                r,
                old(cursor)@.filled,
                final(cursor)@.filled,
                old(self).delivered(),
                final(self).delivered(),
            ),
            final(self).accepted() == old(self).accepted(),
            final(self).vectored() == old(self).vectored(),
    ;
}

/// The write side of the readiness-driven family.
pub trait AsyncWrite: ByteStream {
    fn poll_write(&mut self, buf: &[u8]) -> (r: Poll<Result<usize, IoFailure>>)
        requires
            old(self).inv(),
        ensures
            final(self).inv(),
            final(self).calls() == old(self).calls().push(Call::Write(buf@, r)),
            write_effect(r, buf@, old(self).accepted(), final(self).accepted()),
            final(self).delivered() == old(self).delivered(),
            final(self).vectored() == old(self).vectored(),
    ;

    fn poll_flush(&mut self) -> (r: Poll<Result<(), IoFailure>>)
        requires
            old(self).inv(),
        ensures
            final(self).inv(),
            final(self).calls() == old(self).calls().push(Call::Flush(r)),
            final(self).accepted() == old(self).accepted(),
            final(self).delivered() == old(self).delivered(),
            final(self).vectored() == old(self).vectored(),
    ;

    fn poll_shutdown(&mut self) -> (r: Poll<Result<(), IoFailure>>)
        requires
            old(self).inv(),
        ensures
            final(self).inv(),
            final(self).calls() == old(self).calls().push(Call::Shutdown(r)),
            final(self).accepted() == old(self).accepted(),
            final(self).delivered() == old(self).delivered(),
            final(self).vectored() == old(self).vectored(),
    ;

    fn is_write_vectored(&self) -> (r: bool)
        requires
            self.inv(),
        ensures
            r == self.vectored(),
    ;

    fn poll_write_vectored(&mut self, bufs: &[&[u8]]) -> (r: Poll<Result<usize, IoFailure>>)
        requires
            old(self).inv(),
        ensures
            final(self).inv(),
            final(self).calls() == old(self).calls().push(
                Call::WriteVectored(contents_of(bufs@), r),
            ),
            write_effect(r, concat_all(bufs@), old(self).accepted(), final(self).accepted()),
            final(self).delivered() == old(self).delivered(),
            final(self).vectored() == old(self).vectored(),
    ;
}

/// The write side of the cursor-driven family.
pub trait Write: ByteStream {
    fn poll_write(&mut self, buf: &[u8]) -> (r: Poll<Result<usize, IoFailure>>)
        requires
            old(self).inv(),
        ensures
            final(self).inv(),
            final(self).calls() == old(self).calls().push(Call::Write(buf@, r)),
            write_effect(r, buf@, old(self).accepted(), final(self).accepted()),
            final(self).delivered() == old(self).delivered(),
            final(self).vectored() == old(self).vectored(),
    ;

    fn poll_flush(&mut self) -> (r: Poll<Result<(), IoFailure>>)
        requires
            old(self).inv(),
        ensures
            final(self).inv(),
            final(self).calls() == old(self).calls().push(Call::Flush(r)),
            final(self).accepted() == old(self).accepted(),
            final(self).delivered() == old(self).delivered(),
            final(self).vectored() == old(self).vectored(),
    ;

    fn poll_shutdown(&mut self) -> (r: Poll<Result<(), IoFailure>>)
        requires
            old(self).inv(),
        ensures
            final(self).inv(),
            final(self).calls() == old(self).calls().push(Call::Shutdown(r)),
            final(self).accepted() == old(self).accepted(),
            final(self).delivered() == old(self).delivered(),
            final(self).vectored() == old(self).vectored(),
    ;

    fn is_write_vectored(&self) -> (r: bool)
        requires
            self.inv(),
        ensures
            r == self.vectored(),
    ;

    fn poll_write_vectored(&mut self, bufs: &[&[u8]]) -> (r: Poll<Result<usize, IoFailure>>)
        requires
            old(self).inv(),
        ensures
            final(self).inv(),
            final(self).calls() == old(self).calls().push(
                Call::WriteVectored(contents_of(bufs@), r),
            ),
            write_effect(r, concat_all(bufs@), old(self).accepted(), final(self).accepted()),
            final(self).delivered() == old(self).delivered(),
            final(self).vectored() == old(self).vectored(),
    ;
}

} // verus!
