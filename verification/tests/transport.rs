use rest_client::adapter::TokioIo;
use rest_client::buffer::ReadBuf;
use rest_client::buffer::ReadBufCursor;
use rest_client::memory::MemoryStream;
use rest_client::memory::BROKEN_PIPE;
use rest_client::stream::AsyncRead;
use rest_client::stream::AsyncWrite;
use rest_client::stream::IoFailure;
use rest_client::stream::Poll;
use rest_client::stream::Read;
use rest_client::stream::Write;

fn payload(len: usize) -> Vec<u8> {
    (0..len).map(|i| (i * 7 + 3) as u8).collect()
}

/// Writes all of `data` through the cursor-driven write path of the adapter.
fn write_all(io: &mut TokioIo<MemoryStream>, data: &[u8]) -> usize {
    let mut sent = 0;
    let mut calls = 0;
    while sent < data.len() {
        match Write::poll_write(io, &data[sent..]) {
            Poll::Ready(Ok(n)) => sent += n,
            other => panic!("write did not complete: {:?}", other),
        }
        calls += 1;
    }
    calls
}

/// Reads through the readiness-driven read path of the adapter until the
/// stream is not ready, with a buffer of `capacity` bytes.
fn read_until_pending(io: &mut TokioIo<MemoryStream>, capacity: usize) -> (Vec<u8>, Vec<usize>) {
    let mut out = Vec::new();
    let mut sizes = Vec::new();
    let mut buf = ReadBuf::uninit(capacity);
    loop {
        if buf.remaining() == 0 {
            out.extend_from_slice(buf.filled());
            buf.clear();
        }
        let before = buf.filled_len();
        match AsyncRead::poll_read(io, &mut buf) {
            Poll::Ready(Ok(())) => sizes.push(buf.filled_len() - before),
            Poll::Pending => break,
            other => panic!("read failed: {:?}", other),
        }
    }
    out.extend_from_slice(buf.filled());
    (out, sizes)
}

#[test]
fn the_adapter_gives_its_stream_back() {
    let mut stream = MemoryStream::new(0, 0);
    assert_eq!(stream.write_from(b"xy"), Poll::Ready(Ok(2)));
    let io = TokioIo::new(stream);
    let stream = io.inner();
    assert_eq!(stream.unread(), 2);
}

#[test]
fn a_read_through_the_adapter_fills_exactly_what_arrived() {
    let mut stream = MemoryStream::new(3, 0);
    assert_eq!(stream.write_from(b"0123456789"), Poll::Ready(Ok(10)));
    let mut io = TokioIo::new(stream);
    let mut buf = ReadBuf::uninit(8);

    assert_eq!(AsyncRead::poll_read(&mut io, &mut buf), Poll::Ready(Ok(())));
    assert_eq!(buf.filled(), b"012");
    assert_eq!(buf.initialized_len(), 3);
    assert_eq!(AsyncRead::poll_read(&mut io, &mut buf), Poll::Ready(Ok(())));
    assert_eq!(buf.filled(), b"012345");
    assert_eq!(buf.initialized_len(), 6);
    assert_eq!(AsyncRead::poll_read(&mut io, &mut buf), Poll::Ready(Ok(())));
    assert_eq!(buf.filled(), b"01234567");
    assert_eq!(buf.initialized_len(), 8);
    assert_eq!(buf.remaining(), 0);
    assert_eq!(io.inner().unread(), 2);
}

#[test]
fn a_read_through_the_adapter_advances_the_cursor_by_what_arrived() {
    let mut stream = MemoryStream::new(4, 0);
    assert_eq!(stream.write_from(b"abcdefg"), Poll::Ready(Ok(7)));
    let mut io = TokioIo::new(stream);
    let mut prefilled = ReadBuf::uninit(16);
    prefilled.put_slice(b"..");
    let mut cursor = ReadBufCursor::over(prefilled);

    assert_eq!(Read::poll_read(&mut io, &mut cursor), Poll::Ready(Ok(())));
    assert_eq!(cursor.remaining(), 10);
    assert_eq!(Read::poll_read(&mut io, &mut cursor), Poll::Ready(Ok(())));
    assert_eq!(cursor.remaining(), 7);
    assert_eq!(Read::poll_read(&mut io, &mut cursor), Poll::Pending);
    assert_eq!(cursor.remaining(), 7);
    let buf = cursor.into_buf();
    assert_eq!(buf.filled(), b"..abcdefg");
    assert_eq!(buf.initialized_len(), 9);
}

#[test]
fn not_ready_is_no_error_and_changes_nothing() {
    let mut io = TokioIo::new(MemoryStream::new(0, 0));
    let mut buf = ReadBuf::uninit(4);
    buf.put_slice(b"k");
    assert_eq!(AsyncRead::poll_read(&mut io, &mut buf), Poll::Pending);
    assert_eq!(buf.filled(), b"k");
    assert_eq!(buf.initialized_len(), 1);
    assert_eq!(Write::poll_write(&mut io, b"late"), Poll::Ready(Ok(4)));
    assert_eq!(AsyncRead::poll_read(&mut io, &mut buf), Poll::Ready(Ok(())));
    assert_eq!(buf.filled(), b"klat");
}

#[test]
fn a_failure_passes_through_unchanged() {
    let failure = IoFailure { code: 104 };
    let mut stream = MemoryStream::new(0, 0);
    assert_eq!(stream.write_from(b"data"), Poll::Ready(Ok(4)));
    stream.fail_next(failure);
    let mut io = TokioIo::new(stream);
    let mut buf = ReadBuf::uninit(4);
    buf.put_slice(b"a");
    assert_eq!(AsyncRead::poll_read(&mut io, &mut buf), Poll::Ready(Err(failure)));
    assert_eq!(buf.filled(), b"a");
    assert_eq!(buf.initialized_len(), 1);
    assert_eq!(AsyncRead::poll_read(&mut io, &mut buf), Poll::Ready(Ok(())));
    assert_eq!(buf.filled(), b"adat");

    let mut stream = io.inner();
    stream.fail_next(failure);
    let mut io = TokioIo::new(stream);
    let mut cursor = ReadBufCursor::over(ReadBuf::uninit(4));
    assert_eq!(Read::poll_read(&mut io, &mut cursor), Poll::Ready(Err(failure)));
    assert_eq!(cursor.remaining(), 4);

    let mut stream = io.inner();
    stream.fail_next(failure);
    let mut io = TokioIo::new(stream);
    assert_eq!(Write::poll_write(&mut io, b"zz"), Poll::Ready(Err(failure)));
    assert_eq!(AsyncWrite::poll_write(&mut io, b"zz"), Poll::Ready(Ok(2)));
    assert_eq!(io.inner().unread(), 3);
}

#[test]
fn a_full_buffer_reads_nothing() {
    let mut stream = MemoryStream::new(0, 0);
    assert_eq!(stream.write_from(b"abc"), Poll::Ready(Ok(3)));
    let mut io = TokioIo::new(stream);
    let mut buf = ReadBuf::uninit(2);
    assert_eq!(AsyncRead::poll_read(&mut io, &mut buf), Poll::Ready(Ok(())));
    assert_eq!(buf.filled(), b"ab");
    assert_eq!(AsyncRead::poll_read(&mut io, &mut buf), Poll::Ready(Ok(())));
    assert_eq!(buf.filled(), b"ab");
    assert_eq!(io.inner().unread(), 1);
}

#[test]
fn reads_add_up_to_what_the_stream_produced_for_any_chunking() {
    let data = payload(57);
    for read_limit in [0usize, 1, 2, 3, 5, 8, 13, 57, 100] {
        for capacity in [1usize, 2, 4, 7, 16, 64] {
            let mut io = TokioIo::new(MemoryStream::new(read_limit, 0));
            write_all(&mut io, &data);
            let (out, sizes) = read_until_pending(&mut io, capacity);
            assert_eq!(out, data, "limit {} capacity {}", read_limit, capacity);
            assert_eq!(sizes.iter().sum::<usize>(), data.len());
            for n in &sizes {
                assert!(*n <= capacity);
                assert!(read_limit == 0 || *n <= read_limit);
            }
            assert_eq!(io.inner().unread(), 0);
        }
    }
}

#[test]
fn round_trip_of_no_bytes() {
    let mut io = TokioIo::new(MemoryStream::new(0, 0));
    assert_eq!(Write::poll_write(&mut io, b""), Poll::Ready(Ok(0)));
    let (out, sizes) = read_until_pending(&mut io, 8);
    assert_eq!(out, b"");
    assert!(sizes.is_empty());
}

#[test]
fn round_trip_of_one_byte() {
    let mut io = TokioIo::new(MemoryStream::new(0, 0));
    assert_eq!(write_all(&mut io, b"\xff"), 1);
    let (out, sizes) = read_until_pending(&mut io, 8);
    assert_eq!(out, b"\xff");
    assert_eq!(sizes, vec![1]);
}

#[test]
fn round_trip_of_more_than_one_buffer() {
    let data = payload(1000);
    let mut io = TokioIo::new(MemoryStream::new(0, 64));
    assert_eq!(write_all(&mut io, &data), 16);
    let (out, sizes) = read_until_pending(&mut io, 96);
    assert_eq!(out, data);
    assert_eq!(sizes.len(), 11);
    assert_eq!(sizes[0], 96);
    assert_eq!(sizes[10], 40);
}

#[test]
fn round_trip_through_two_adapters() {
    let data = payload(300);
    let mut io = TokioIo::new(TokioIo::new(MemoryStream::new(7, 11)));
    let mut sent = 0;
    while sent < data.len() {
        match AsyncWrite::poll_write(&mut io, &data[sent..]) {
            Poll::Ready(Ok(n)) => {
                assert!(n <= 11);
                sent += n;
            },
            other => panic!("write did not complete: {:?}", other),
        }
    }
    let mut out = Vec::new();
    loop {
        let mut cursor = ReadBufCursor::over(ReadBuf::uninit(10));
        match Read::poll_read(&mut io, &mut cursor) {
            Poll::Ready(Ok(())) => out.extend_from_slice(cursor.into_buf().filled()),
            Poll::Pending => break,
            other => panic!("read failed: {:?}", other),
        }
    }
    assert_eq!(out, data);
}

#[test]
fn a_write_takes_no_more_than_the_limit() {
    let mut io = TokioIo::new(MemoryStream::new(0, 3));
    assert_eq!(Write::poll_write(&mut io, b"abcdefgh"), Poll::Ready(Ok(3)));
    assert_eq!(Write::poll_write(&mut io, b"de"), Poll::Ready(Ok(2)));
    assert_eq!(AsyncWrite::poll_write(&mut io, b""), Poll::Ready(Ok(0)));
    let (out, _) = read_until_pending(&mut io, 16);
    assert_eq!(out, b"abcde");
}

#[test]
fn a_vectored_write_takes_the_first_buffer_that_holds_anything() {
    let mut io = TokioIo::new(MemoryStream::new(0, 0));
    assert!(!Write::is_write_vectored(&io));
    assert!(!AsyncWrite::is_write_vectored(&io));
    let bufs: [&[u8]; 4] = [b"", b"", b"hello", b"world"];
    assert_eq!(Write::poll_write_vectored(&mut io, &bufs), Poll::Ready(Ok(5)));
    let none: [&[u8]; 2] = [b"", b""];
    assert_eq!(AsyncWrite::poll_write_vectored(&mut io, &none), Poll::Ready(Ok(0)));
    assert_eq!(AsyncWrite::poll_write_vectored(&mut io, &[]), Poll::Ready(Ok(0)));
    let (out, _) = read_until_pending(&mut io, 16);
    assert_eq!(out, b"hello");

    let mut limited = MemoryStream::new(0, 2);
    assert_eq!(limited.write_vectored(&bufs), Poll::Ready(Ok(2)));
    assert_eq!(limited.unread(), 2);
}

#[test]
fn flush_and_shutdown_move_no_bytes() {
    let mut io = TokioIo::new(MemoryStream::new(0, 0));
    assert_eq!(Write::poll_write(&mut io, b"abc"), Poll::Ready(Ok(3)));
    assert_eq!(Write::poll_flush(&mut io), Poll::Ready(Ok(())));
    assert_eq!(AsyncWrite::poll_flush(&mut io), Poll::Ready(Ok(())));
    assert_eq!(Write::poll_shutdown(&mut io), Poll::Ready(Ok(())));
    assert_eq!(
        Write::poll_write(&mut io, b"d"),
        Poll::Ready(Err(IoFailure { code: BROKEN_PIPE }))
    );
    let mut buf = ReadBuf::uninit(8);
    assert_eq!(AsyncRead::poll_read(&mut io, &mut buf), Poll::Ready(Ok(())));
    assert_eq!(buf.filled(), b"abc");
    assert_eq!(AsyncRead::poll_read(&mut io, &mut buf), Poll::Ready(Ok(())));
    assert_eq!(buf.filled(), b"abc");
    assert_eq!(io.inner().unread(), 0);
}

#[test]
fn the_stream_reads_the_same_through_both_interfaces() {
    let data = payload(40);
    let mut a = MemoryStream::new(6, 0);
    let mut b = MemoryStream::new(6, 0);
    assert_eq!(a.write_from(&data), Poll::Ready(Ok(40)));
    assert_eq!(b.write_from(&data), Poll::Ready(Ok(40)));
    let mut buf = ReadBuf::uninit(64);
    let mut cursor = ReadBufCursor::over(ReadBuf::uninit(64));
    loop {
        let ra = a.read_into(&mut buf);
        let rb = b.read_through(&mut cursor);
        assert_eq!(ra, rb);
        if ra == Poll::Pending {
            break;
        }
    }
    let through_cursor = cursor.into_buf();
    assert_eq!(buf.filled(), through_cursor.filled());
    assert_eq!(buf.filled(), &data[..]);
}
