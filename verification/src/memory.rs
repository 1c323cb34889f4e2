//! An in-memory stream that stands in for a socket: what is written to it can
//! be read back from it, in order. It can be told to hand over or take only a
//! few bytes at a time, to fail once, and it reports "not ready" when a read
//! finds nothing, so that partial transfers can be exercised without a network.

use vstd::prelude::*;
use vstd::slice::*;
use crate::adapter::TokioIo;
use crate::buffer::ReadBuf;
use crate::buffer::ReadBufCursor;
use crate::stream::appended;
use crate::stream::concat_all;
use crate::stream::extends;
use crate::stream::lemma_reads_accumulate;
use crate::stream::read_effect;
use crate::stream::read_run;
use crate::stream::write_effect;
use crate::stream::AsyncRead;
use crate::stream::AsyncWrite;
use crate::stream::ByteStream;
use crate::stream::Call;
use crate::stream::contents_of;
use crate::stream::IoFailure;
use crate::stream::Poll;
use crate::stream::Read;
use crate::stream::Write;

verus! {

/// The failure code of a write after shutdown.
pub const BROKEN_PIPE: i32 = 32;

/// The state of an in-memory stream.
pub struct MemoryStreamView {
    /// Every byte written so far.
    pub data: Seq<u8>,
    /// How many of them have been read.
    pub read_pos: nat,
    /// The most bytes one read hands over; 0 for no limit.
    pub read_limit: nat,
    /// The most bytes one write takes; 0 for no limit.
    pub write_limit: nat,
    /// Whether the write side has been shut down.
    pub closed: bool,
    /// A failure that the next read or write reports instead of working.
    pub failure: Option<IoFailure>,
}

/// How many bytes move in one transfer: all that are there, unless the room
/// or the limit is smaller. A limit of 0 is none.
pub open spec fn chunk_len(available: nat, room: nat, limit: nat) -> nat {
    let fit = if available <= room {
        available
    } else {
        room
    };
    if limit == 0 || fit <= limit {
        fit
    } else {
        limit
    }
}

impl MemoryStreamView {
    /// The outcome of a read into `room` free bytes, the state after it, and
    /// the bytes it hands over.
    pub open spec fn read(self, room: nat) -> (Poll<Result<(), IoFailure>>, MemoryStreamView, Seq<u8>) {
        if let Some(f) = self.failure {
            (
                Poll::Ready(Err(f)),
                MemoryStreamView { failure: None, ..self },
                Seq::<u8>::empty(),
            )
        } else if self.read_pos >= self.data.len() && !self.closed {
            (Poll::Pending, self, Seq::<u8>::empty())
        } else {
            let n = chunk_len((self.data.len() - self.read_pos) as nat, room, self.read_limit);
            (
                Poll::Ready(Ok(())),
                MemoryStreamView { read_pos: self.read_pos + n, ..self },
                self.data.subrange(self.read_pos as int, (self.read_pos + n) as int),
            )
        }
    }

    /// The outcome of a write of `src`, and the state after it.
    pub open spec fn write(self, src: Seq<u8>) -> (Poll<Result<usize, IoFailure>>, MemoryStreamView) {
        if let Some(f) = self.failure {
            (Poll::Ready(Err(f)), MemoryStreamView { failure: None, ..self })
        } else if self.closed {
            (Poll::Ready(Err(IoFailure { code: BROKEN_PIPE })), self)
        } else {
            let n = chunk_len(src.len(), src.len(), self.write_limit);
            (
                Poll::Ready(Ok(n as usize)),
                MemoryStreamView { data: self.data + src.subrange(0, n as int), ..self },
            )
        }
    }
}

/// The first buffer that holds anything, or an empty one if none does.
pub open spec fn first_nonempty(bufs: Seq<&[u8]>) -> Seq<u8>
    decreases bufs.len(),
{
    if bufs.len() == 0 {
        Seq::<u8>::empty()
    } else if bufs[0]@.len() > 0 {
        bufs[0]@
    } else {
        first_nonempty(bufs.drop_first())
    }
}

/// The first buffer that holds anything is how the bytes of all the buffers
/// begin.
pub proof fn lemma_first_nonempty_is_prefix(bufs: Seq<&[u8]>)
    ensures
        first_nonempty(bufs).len() <= concat_all(bufs).len(),
        concat_all(bufs).subrange(0, first_nonempty(bufs).len() as int) == first_nonempty(bufs),
    decreases bufs.len(),
{
    if bufs.len() == 0 {
        assert(concat_all(bufs).subrange(0, 0) =~= Seq::<u8>::empty());
    } else {
        lemma_concat_split_first(bufs);
        if bufs[0]@.len() > 0 {
            assert((bufs[0]@ + concat_all(bufs.drop_first())).subrange(0, bufs[0]@.len() as int)
                =~= bufs[0]@);
        } else {
            lemma_first_nonempty_is_prefix(bufs.drop_first());
            assert(bufs[0]@ + concat_all(bufs.drop_first()) =~= concat_all(bufs.drop_first()));
        }
    }
}

/// The bytes of all the buffers are the first buffer's, then the others'.
pub proof fn lemma_concat_split_first(bufs: Seq<&[u8]>)
    requires
        bufs.len() > 0,
    ensures
        concat_all(bufs) == bufs[0]@ + concat_all(bufs.drop_first()),
    decreases bufs.len(),
{
    if bufs.len() == 1 {
        assert(bufs.drop_last() =~= Seq::<&[u8]>::empty());
        assert(bufs.drop_first() =~= Seq::<&[u8]>::empty());
        assert(concat_all(bufs.drop_last()) =~= Seq::<u8>::empty());
        assert(concat_all(bufs.drop_first()) =~= Seq::<u8>::empty());
        assert(concat_all(bufs) =~= bufs[0]@ + concat_all(bufs.drop_first()));
    } else {
        lemma_concat_split_first(bufs.drop_last());
        assert(bufs.drop_last().drop_first() =~= bufs.drop_first().drop_last());
        assert(bufs.drop_last()[0] == bufs[0]);
        assert(bufs.drop_first().last() == bufs.last());
        assert(concat_all(bufs) =~= bufs[0]@ + concat_all(bufs.drop_first()));
    }
}

/// A stream that keeps what is written to it until it is read.
pub struct MemoryStream {
    data: Vec<u8>,
    read_pos: usize,
    read_limit: usize,
    write_limit: usize,
    closed: bool,
    failure: Option<IoFailure>,
    calls: Ghost<Seq<Call>>,
}

impl View for MemoryStream {
    type V = MemoryStreamView;

    closed spec fn view(&self) -> MemoryStreamView {
        MemoryStreamView {
            data: self.data@,
            read_pos: self.read_pos as nat,
            read_limit: self.read_limit as nat,
            write_limit: self.write_limit as nat,
            closed: self.closed,
            failure: self.failure,
        }
    }
}

impl MemoryStream {
    /// An empty, open stream that moves at most `read_limit` bytes per read
    /// and `write_limit` bytes per write; 0 sets no limit.
    pub fn new(read_limit: usize, write_limit: usize) -> (s: MemoryStream)
        ensures
            s.inv(),
            s.calls() == Seq::<Call>::empty(),
            s@ == (MemoryStreamView {
                data: Seq::<u8>::empty(),
                read_pos: 0,
                read_limit: read_limit as nat,
                write_limit: write_limit as nat,
                closed: false,
                failure: None,
            }),
    {
        MemoryStream {
            data: Vec::new(),
            read_pos: 0,
            read_limit,
            write_limit,
            closed: false,
            failure: None,
            calls: Ghost(Seq::empty()),
        }
    }

    /// Makes the next read or write fail with `failure`.
    pub fn fail_next(&mut self, failure: IoFailure)
        requires
            old(self).inv(),
        ensures
            final(self).inv(),
            final(self).calls() == old(self).calls(),
            final(self)@ == (MemoryStreamView { failure: Some(failure), ..old(self)@ }),
    {
        self.failure = Some(failure);
    }

    /// How many written bytes have not been read yet.
    pub fn unread(&self) -> (n: usize)
        requires
            self.inv(),
        ensures
            n == self@.data.len() - self@.read_pos,
    {
        self.data.len() - self.read_pos
    }

    fn transfer_len(available: usize, room: usize, limit: usize) -> (n: usize)
        ensures
            n == chunk_len(available as nat, room as nat, limit as nat),
    {
        let fit: usize = if available <= room {
            available
        } else {
            room
        };
        if limit == 0 || fit <= limit {
            fit
        } else {
            limit
        }
    }

    /// Decides one read into `room` free bytes and moves the read position:
    /// the outcome, and where in `data` the bytes to hand over begin and end.
    fn next_read(&mut self, room: usize) -> (r: (Poll<Result<(), IoFailure>>, usize, usize))
        requires
            old(self).inv(),
        ensures
            final(self).inv(),
            final(self).calls() == old(self).calls().push(Call::Read(room as nat, r.0)),
            r.0 == old(self)@.read(room as nat).0,
            final(self)@ == old(self)@.read(room as nat).1,
            r.1 <= r.2 <= final(self)@.data.len(),
            r.2 - r.1 <= room,
            final(self)@.data.subrange(r.1 as int, r.2 as int) == old(self)@.read(room as nat).2,
    {
        let start: usize = self.read_pos;
        let available: usize = self.data.len() - self.read_pos;
        let (outcome, n) = if let Some(f) = self.failure {
            self.failure = None;
            (Poll::Ready(Err(f)), 0)
        } else if available == 0 && !self.closed {
            (Poll::Pending, 0)
        } else {
            let n: usize = Self::transfer_len(available, room, self.read_limit);
            self.read_pos = self.read_pos + n;
            (Poll::Ready(Ok(())), n)
        };
        self.calls = Ghost(self.calls@.push(Call::Read(room as nat, outcome)));
        assert(self@.data.subrange(start as int, start + n) =~= old(self)@.read(room as nat).2);
        (outcome, start, start + n)
    }

    /// Hands over the next unread bytes: as many as are there, fit in the
    /// buffer and pass the read limit. With nothing unread the stream is not
    /// ready, or, once shut down, at its end: the read completes with nothing.
    pub fn read_into(&mut self, buf: &mut ReadBuf) -> (r: Poll<Result<(), IoFailure>>)
        requires
            old(self).inv(),
            old(buf).wf(),
        ensures
            final(self).inv(),
            final(buf).wf(),
            final(buf)@.capacity == old(buf)@.capacity,
            final(buf)@.init >= old(buf)@.init,
            final(self).calls() == old(self).calls().push(
                Call::Read((old(buf)@.capacity - old(buf)@.filled.len()) as nat, r),
            ),
            r == old(self)@.read((old(buf)@.capacity - old(buf)@.filled.len()) as nat).0,
            final(self)@ == old(self)@.read(
                (old(buf)@.capacity - old(buf)@.filled.len()) as nat,
            ).1,
            final(buf)@.filled == old(buf)@.filled + old(self)@.read(
                (old(buf)@.capacity - old(buf)@.filled.len()) as nat,
            ).2,
    {
        let (r, start, end) = self.next_read(buf.remaining());
        buf.put_slice(slice_subrange(self.data.as_slice(), start, end));
        r
    }

    /// Hands over the next unread bytes through a cursor, as `read_into` does
    /// through a buffer.
    pub fn read_through(&mut self, cursor: &mut ReadBufCursor) -> (r: Poll<Result<(), IoFailure>>)
        requires
            old(self).inv(),
            old(cursor).wf(),
        ensures
            final(self).inv(),
            final(cursor).wf(),
            final(cursor)@.capacity == old(cursor)@.capacity,
            final(cursor)@.init >= old(cursor)@.init,
            final(self).calls() == old(self).calls().push(
                Call::Read((old(cursor)@.capacity - old(cursor)@.filled.len()) as nat, r),
            ),
            r == old(self)@.read((old(cursor)@.capacity - old(cursor)@.filled.len()) as nat).0,
            final(self)@ == old(self)@.read(
                (old(cursor)@.capacity - old(cursor)@.filled.len()) as nat,
            ).1,
            final(cursor)@.filled == old(cursor)@.filled + old(self)@.read(
                (old(cursor)@.capacity - old(cursor)@.filled.len()) as nat,
            ).2,
    {
        let (r, start, end) = self.next_read(cursor.remaining());
        cursor.put_slice(slice_subrange(self.data.as_slice(), start, end));
        r
    }

    /// Decides one write of `src` and takes the bytes, without recording the
    /// call.
    fn take(&mut self, src: &[u8]) -> (r: Poll<Result<usize, IoFailure>>)
        requires
            old(self).inv(),
        ensures
            final(self).inv(),
            final(self).calls() == old(self).calls(),
            r == old(self)@.write(src@).0,
            final(self)@ == old(self)@.write(src@).1,
            r matches Poll::Ready(Ok(n)) ==> n == chunk_len(
                src@.len(),
                src@.len(),
                old(self)@.write_limit,
            ),
    {
        if let Some(f) = self.failure {
            self.failure = None;
            return Poll::Ready(Err(f));
        }
        if self.closed {
            return Poll::Ready(Err(IoFailure { code: BROKEN_PIPE }));
        }
        let n: usize = Self::transfer_len(src.len(), src.len(), self.write_limit);
        let chunk = slice_subrange(src, 0, n);
        self.data.extend_from_slice(chunk);
        assert(self@.data =~= old(self)@.data + src@.subrange(0, n as int));
        Poll::Ready(Ok(n))
    }

    /// Takes the first bytes of `src`, as many as pass the write limit. After
    /// shutdown every write fails.
    pub fn write_from(&mut self, src: &[u8]) -> (r: Poll<Result<usize, IoFailure>>)
        requires
            old(self).inv(),
        ensures
            final(self).inv(),
            final(self).calls() == old(self).calls().push(Call::Write(src@, r)),
            r == old(self)@.write(src@).0,
            final(self)@ == old(self)@.write(src@).1,
            r matches Poll::Ready(Ok(n)) ==> n == chunk_len(
                src@.len(),
                src@.len(),
                old(self)@.write_limit,
            ),
    {
        let r = self.take(src);
        self.calls = Ghost(self.calls@.push(Call::Write(src@, r)));
        r
    }

    /// Has nothing to flush: what is written is there to be read at once.
    pub fn flush(&mut self) -> (r: Poll<Result<(), IoFailure>>)
        requires
            old(self).inv(),
        ensures
            final(self).inv(),
            r == Poll::Ready(Ok::<(), IoFailure>(())),
            final(self).calls() == old(self).calls().push(Call::Flush(r)),
            final(self)@ == old(self)@,
    {
        let r = Poll::Ready(Ok(()));
        self.calls = Ghost(self.calls@.push(Call::Flush(r)));
        r
    }

    /// Shuts the write side down: later writes fail, and a read that finds
    /// nothing unread completes with nothing instead of waiting.
    pub fn shutdown(&mut self)
        requires
            old(self).inv(),
        ensures
            final(self).inv(),
            final(self).calls() == old(self).calls().push(
                Call::Shutdown(Poll::Ready(Ok::<(), IoFailure>(()))),
            ),
            final(self)@ == (MemoryStreamView { closed: true, ..old(self)@ }),
    {
        self.closed = true;
        self.calls = Ghost(
            self.calls@.push(Call::Shutdown(Poll::Ready(Ok::<(), IoFailure>(())))),
        );
    }

    /// Takes bytes from the first buffer that holds any, as `write_from`
    /// would.
    pub fn write_vectored(&mut self, bufs: &[&[u8]]) -> (r: Poll<Result<usize, IoFailure>>)
        requires
            old(self).inv(),
        ensures
            final(self).inv(),
            final(self).calls() == old(self).calls().push(
                Call::WriteVectored(contents_of(bufs@), r),
            ),
            r == old(self)@.write(first_nonempty(bufs@)).0,
            final(self)@ == old(self)@.write(first_nonempty(bufs@)).1,
            r matches Poll::Ready(Ok(n)) ==> n == chunk_len(
                first_nonempty(bufs@).len(),
                first_nonempty(bufs@).len(),
                old(self)@.write_limit,
            ),
    {
        let first = Self::first_filled(bufs);
        let r = self.take(first);
        self.calls = Ghost(self.calls@.push(Call::WriteVectored(contents_of(bufs@), r)));
        r
    }

    fn first_filled<'a>(bufs: &'a [&'a [u8]]) -> (first: &'a [u8])
        ensures
            first@ == first_nonempty(bufs@),
    {
        let mut i: usize = 0;
        assert(bufs@.subrange(0, bufs@.len() as int) =~= bufs@);
        while i < bufs.len()
            invariant
                i <= bufs@.len(),
                first_nonempty(bufs@) == first_nonempty(bufs@.subrange(i as int, bufs@.len() as int)),
            decreases bufs@.len() - i,
        {
            let ghost rest = bufs@.subrange(i as int, bufs@.len() as int);
            if bufs[i].len() > 0 {
                assert(rest[0] == bufs@[i as int]);
                return bufs[i];
            }
            assert(rest[0] == bufs@[i as int]);
            assert(rest.drop_first() =~= bufs@.subrange(i + 1, bufs@.len() as int));
            i = i + 1;
        }
        assert(bufs@.subrange(i as int, bufs@.len() as int) =~= Seq::<&[u8]>::empty());
        let empty: &[u8] = &[];
        assert(empty@ =~= Seq::<u8>::empty());
        empty
    }
}

impl ByteStream for MemoryStream {
    closed spec fn inv(&self) -> bool {
        self.read_pos <= self.data@.len()
    }

    open spec fn delivered(&self) -> Seq<u8> {
        self@.data.subrange(0, self@.read_pos as int)
    }

    open spec fn accepted(&self) -> Seq<u8> {
        self@.data
    }

    open spec fn vectored(&self) -> bool {
        false
    }

    closed spec fn calls(&self) -> Seq<Call> {
        self.calls@
    }
}

/// What a read does to the stream's records, given what it does to the
/// buffer: the bytes handed over are the next unread ones.
proof fn lemma_read_effect(
    before: MemoryStream,
    after: MemoryStream,
    r: Poll<Result<(), IoFailure>>,
    filled_before: Seq<u8>,
    filled_after: Seq<u8>,
    room: nat,
)
    requires
        before.inv(),
        r == before@.read(room).0,
        after@ == before@.read(room).1,
        filled_after == filled_before + before@.read(room).2,
    ensures
        after.inv(),
        read_effect(
            r,
            filled_before,
            filled_after,
            before.delivered(),
            after.delivered(),
        ),
        after.accepted() == before.accepted(),
{
    let chunk = before@.read(room).2;
    assert(filled_after.subrange(0, filled_before.len() as int) =~= filled_before);
    assert(appended(filled_before, filled_after) =~= chunk);
    assert(after.delivered() =~= before.delivered() + chunk);
    assert(filled_before + Seq::<u8>::empty() =~= filled_before);
}

impl AsyncRead for MemoryStream {
    fn poll_read(&mut self, buf: &mut ReadBuf) -> (r: Poll<Result<(), IoFailure>>) {
        let r = self.read_into(buf);
        proof {
            old(buf).lemma_bounds();
            lemma_read_effect(
                *old(self),
                *self,
                r,
                old(buf)@.filled,
                buf@.filled,
                (old(buf)@.capacity - old(buf)@.filled.len()) as nat,
            );
        }
        r
    }
}

impl Read for MemoryStream {
    fn poll_read(&mut self, cursor: &mut ReadBufCursor) -> (r: Poll<Result<(), IoFailure>>) {
        let r = self.read_through(cursor);
        proof {
            lemma_read_effect(
                *old(self),
                *self,
                r,
                old(cursor)@.filled,
                cursor@.filled,
                (old(cursor)@.capacity - old(cursor)@.filled.len()) as nat,
            );
        }
        r
    }
}

/// What a write does to the stream's records.
proof fn lemma_write_effect(
    before: MemoryStream,
    after: MemoryStream,
    r: Poll<Result<usize, IoFailure>>,
    src: Seq<u8>,
)
    requires
        before.inv(),
        after.inv(),
        r matches Poll::Ready(Ok(n)) ==> n == chunk_len(
            src.len(),
            src.len(),
            before@.write_limit,
        ),
        r == before@.write(src).0,
        after@ == before@.write(src).1,
    ensures
        write_effect(r, src, before.accepted(), after.accepted()),
        after.delivered() == before.delivered(),
{
    assert(after.delivered() =~= before.delivered());
}

/// A write of the first buffer that holds anything is a write of the first
/// bytes of all the buffers.
proof fn lemma_vectored_write_effect(
    r: Poll<Result<usize, IoFailure>>,
    bufs: Seq<&[u8]>,
    before: Seq<u8>,
    after: Seq<u8>,
)
    requires
        write_effect(r, first_nonempty(bufs), before, after),
    ensures
        write_effect(r, concat_all(bufs), before, after),
{
    lemma_first_nonempty_is_prefix(bufs);
    if let Poll::Ready(Ok(n)) = r {
        let first = first_nonempty(bufs);
        assert(first.subrange(0, n as int) =~= concat_all(bufs).subrange(
            0,
            first.len() as int,
        ).subrange(0, n as int));
        assert(concat_all(bufs).subrange(0, first.len() as int).subrange(0, n as int)
            =~= concat_all(bufs).subrange(0, n as int));
    }
}

impl AsyncWrite for MemoryStream {
    fn poll_write(&mut self, buf: &[u8]) -> (r: Poll<Result<usize, IoFailure>>) {
        let r = self.write_from(buf);
        proof {
            lemma_write_effect(*old(self), *self, r, buf@);
        }
        r
    }

    fn poll_flush(&mut self) -> (r: Poll<Result<(), IoFailure>>) {
        self.flush()
    }

    fn poll_shutdown(&mut self) -> (r: Poll<Result<(), IoFailure>>) {
        self.shutdown();
        Poll::Ready(Ok(()))
    }

    fn is_write_vectored(&self) -> (r: bool) {
        false
    }

    fn poll_write_vectored(&mut self, bufs: &[&[u8]]) -> (r: Poll<Result<usize, IoFailure>>) {
        let r = self.write_vectored(bufs);
        proof {
            lemma_first_nonempty_is_prefix(bufs@);
            lemma_write_effect(*old(self), *self, r, first_nonempty(bufs@));
            lemma_vectored_write_effect(r, bufs@, old(self).accepted(), self.accepted());
        }
        r
    }
}

impl Write for MemoryStream {
    fn poll_write(&mut self, buf: &[u8]) -> (r: Poll<Result<usize, IoFailure>>) {
        let r = self.write_from(buf);
        proof {
            lemma_write_effect(*old(self), *self, r, buf@);
        }
        r
    }

    fn poll_flush(&mut self) -> (r: Poll<Result<(), IoFailure>>) {
        self.flush()
    }

    fn poll_shutdown(&mut self) -> (r: Poll<Result<(), IoFailure>>) {
        self.shutdown();
        Poll::Ready(Ok(()))
    }

    fn is_write_vectored(&self) -> (r: bool) {
        false
    }

    fn poll_write_vectored(&mut self, bufs: &[&[u8]]) -> (r: Poll<Result<usize, IoFailure>>) {
        let r = self.write_vectored(bufs);
        proof {
            lemma_first_nonempty_is_prefix(bufs@);
            lemma_write_effect(*old(self), *self, r, first_nonempty(bufs@));
            lemma_vectored_write_effect(r, bufs@, old(self).accepted(), self.accepted());
        }
        r
    }
}

/// What has been read from an in-memory stream is how what was written to it
/// begins: the same bytes in the same order. Once as many bytes have been
/// read as were written, what was read is what was written.
pub proof fn lemma_read_back_is_what_was_written(s: MemoryStream)
    requires
        s.inv(),
    ensures
        extends(s.delivered(), s.accepted()),
        s.delivered().len() == s.accepted().len() ==> s.delivered() == s.accepted(),
{
    assert(s.accepted().subrange(0, s.delivered().len() as int) =~= s.delivered());
    if s.delivered().len() == s.accepted().len() {
        assert(s.accepted().subrange(0, s.accepted().len() as int) =~= s.accepted());
    }
}

/// The same holds through the adapter, whichever of its write paths took the
/// bytes and whichever of its read paths handed them back: it adds nothing
/// and keeps nothing.
pub proof fn lemma_round_trip_through_adapter(io: TokioIo<MemoryStream>)
    requires
        io.inv(),
    ensures
        extends(io.delivered(), io.accepted()),
        io.delivered().len() == io.accepted().len() ==> io.delivered() == io.accepted(),
{
    lemma_read_back_is_what_was_written(io.stream());
}

/// A payload written to a fresh stream through the adapter and read back
/// through it into an empty buffer arrives as it was sent: whatever the run
/// of reads that filled the buffer, once the buffer holds as many bytes as
/// the payload has, it holds the payload.
pub proof fn lemma_payload_round_trip(
    io: TokioIo<MemoryStream>,
    payload: Seq<u8>,
    outcomes: Seq<Poll<Result<(), IoFailure>>>,
    filled: Seq<Seq<u8>>,
    delivered: Seq<Seq<u8>>,
)
    requires
        io.inv(),
        io.accepted() == payload,
        read_run(outcomes, filled, delivered),
        filled[0] == Seq::<u8>::empty(),
        delivered[0] == Seq::<u8>::empty(),
        delivered.last() == io.delivered(),
        filled.last().len() == payload.len(),
    ensures
        filled.last() == payload,
{
    lemma_reads_accumulate(outcomes, filled, delivered);
    lemma_round_trip_through_adapter(io);
    assert(appended(filled[0], filled.last()) =~= filled.last());
    assert(delivered[0] + filled.last() =~= filled.last());
}

} // verus!
