//! The transport adapter: one owned stream, presented through the other
//! family of interfaces. It keeps no bytes of its own. A read goes into a
//! scratch buffer sized to what the caller's buffer can still take, and only
//! what the stream reports as filled there is moved on and marked as data.

use vstd::prelude::*;
use crate::buffer::ReadBuf;
use crate::buffer::ReadBufCursor;
use crate::buffer::raised_to;
use crate::stream::appended;
use crate::stream::AsyncRead;
use crate::stream::AsyncWrite;
use crate::stream::ByteStream;
use crate::stream::Call;
use crate::stream::IoFailure;
use crate::stream::Poll;
use crate::stream::Read;
use crate::stream::Write;

verus! {

/// A stream of one family, usable as a stream of the other.
#[derive(Debug)]
pub struct TokioIo<T> {
    inner: T,
}

impl<T> TokioIo<T> {
    /// The stream that the adapter owns.
    pub closed spec fn stream(&self) -> T {
        self.inner
    }

    pub fn new(inner: T) -> (io: Self)
        ensures
            io.stream() == inner,
    {
        TokioIo { inner }
    }

    /// Gives the stream back.
    pub fn inner(self) -> (inner: T)
        ensures
            inner == self.stream(),
    {
        self.inner
    }
}

impl<T: ByteStream> ByteStream for TokioIo<T> {
    open spec fn inv(&self) -> bool {
        self.stream().inv()
    }

    open spec fn delivered(&self) -> Seq<u8> {
        self.stream().delivered()
    }

    open spec fn accepted(&self) -> Seq<u8> {
        self.stream().accepted()
    }

    open spec fn vectored(&self) -> bool {
        self.stream().vectored()
    }

    open spec fn calls(&self) -> Seq<Call> {
        self.stream().calls()
    }
}

impl<T: AsyncRead> Read for TokioIo<T> {
    /// Reads through the readiness-driven stream and advances the cursor by
    /// exactly what that read filled.
    fn poll_read(&mut self, cursor: &mut ReadBufCursor) -> (r: Poll<Result<(), IoFailure>>)
        ensures
            r == Poll::Ready(Ok::<(), IoFailure>(())) ==> final(cursor)@.init == raised_to(
                old(cursor)@.init as int,
                final(cursor)@.filled.len() as int,
            ),
            r != Poll::Ready(Ok::<(), IoFailure>(())) ==> final(cursor)@ == old(cursor)@,
    {
        let mut buffer = ReadBuf::uninit(cursor.remaining());
        let polled = self.inner.poll_read(&mut buffer);
        let n: usize = match &polled {
            Poll::Ready(Ok(())) => buffer.filled_len(),
            _ => {
                return polled;
            },
        };
        proof {
            buffer.lemma_bounds();
            assert(polled->Ready_0->Ok_0 == ());
        }
        cursor.write_unfilled(buffer.filled());
        cursor.advance(n);
        proof {
            let produced = buffer@.filled;
            assert(appended(Seq::<u8>::empty(), produced) =~= produced);
            assert(cursor@.filled =~= old(cursor)@.filled + produced);
            assert(appended(old(cursor)@.filled, cursor@.filled) =~= produced);
            assert(cursor@.filled.subrange(0, old(cursor)@.filled.len() as int) =~= old(
                cursor,
            )@.filled);
        }
        polled
    }
}

impl<T: AsyncWrite> Write for TokioIo<T> {
    fn poll_write(&mut self, buf: &[u8]) -> (r: Poll<Result<usize, IoFailure>>) {
        self.inner.poll_write(buf)
    }

    fn poll_flush(&mut self) -> (r: Poll<Result<(), IoFailure>>) {
        self.inner.poll_flush()
    }

    fn poll_shutdown(&mut self) -> (r: Poll<Result<(), IoFailure>>) {
        self.inner.poll_shutdown()
    }

    fn is_write_vectored(&self) -> (r: bool) {
        self.inner.is_write_vectored()
    }

    fn poll_write_vectored(&mut self, bufs: &[&[u8]]) -> (r: Poll<Result<usize, IoFailure>>) {
        self.inner.poll_write_vectored(bufs)
    }
}

impl<T: Read> AsyncRead for TokioIo<T> {
    /// Reads through the cursor-driven stream into the unfilled part of `buf`,
    /// then marks exactly what that read wrote as initialized and as filled.
    fn poll_read(&mut self, buf: &mut ReadBuf) -> (r: Poll<Result<(), IoFailure>>)
        ensures
            r == Poll::Ready(Ok::<(), IoFailure>(())) ==> final(buf)@.init == raised_to(
                old(buf)@.init as int,
                final(buf)@.filled.len() as int,
            ),
            r != Poll::Ready(Ok::<(), IoFailure>(())) ==> final(buf)@ == old(buf)@,
    {
        let filled: usize = buf.filled_len();
        let mut cursor = ReadBufCursor::over(ReadBuf::uninit(buf.remaining()));
        let polled = self.inner.poll_read(&mut cursor);
        match &polled {
            Poll::Ready(Ok(())) => {},
            _ => {
                return polled;
            },
        }
        let buffer = cursor.into_buf();
        let sub_filled: usize = buffer.filled_len();
        proof {
            buffer.lemma_bounds();
            buf.lemma_bounds();
        }
        buf.write_unfilled(buffer.filled());
        let n_filled: usize = filled + sub_filled;
        let n_init: usize = sub_filled;
        buf.assume_init(n_init);
        buf.set_filled(n_filled);
        proof {
            let produced = buffer@.filled;
            assert(appended(Seq::<u8>::empty(), produced) =~= produced);
            assert(buf@.filled =~= old(buf)@.filled + produced);
            assert(appended(old(buf)@.filled, buf@.filled) =~= produced);
            assert(buf@.filled.subrange(0, old(buf)@.filled.len() as int) =~= old(buf)@.filled);
        }
        polled
    }
}

impl<T: Write> AsyncWrite for TokioIo<T> {
    fn poll_write(&mut self, buf: &[u8]) -> (r: Poll<Result<usize, IoFailure>>) {
        self.inner.poll_write(buf)
    }

    fn poll_flush(&mut self) -> (r: Poll<Result<(), IoFailure>>) {
        self.inner.poll_flush()
    }

    fn poll_shutdown(&mut self) -> (r: Poll<Result<(), IoFailure>>) {
        self.inner.poll_shutdown()
    }

    fn is_write_vectored(&self) -> (r: bool) {
        self.inner.is_write_vectored()
    }

    fn poll_write_vectored(&mut self, bufs: &[&[u8]]) -> (r: Poll<Result<usize, IoFailure>>) {
        self.inner.poll_write_vectored(bufs)
    }
}

} // verus!
