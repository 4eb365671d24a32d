//! Byte I/O: the derived whole-buffer operations and the one-shot
//! wrappers, against the simulated streams.

use embedded_platform::future::ContextCell;
use embedded_platform::future::Future;
use embedded_platform::io::ReadExt;
use embedded_platform::io::WriteExt;
use embedded_platform::sim::error::Error;
use embedded_platform::sim::serial::SimReader;
use embedded_platform::sim::serial::SimWriter;
use embedded_platform::task::Context;
use embedded_platform::task::Poll;
use embedded_platform::task::Waker;

fn cx() -> Context {
    Context::from_waker(Waker { task: 0 })
}

#[test]
fn read_exact_assembles_chunks_in_order() {
    // A source that yields 9 bytes in chunks of 3, 4 and 2.
    let data: Vec<u8> = vec![10, 11, 12, 13, 14, 15, 16, 17, 18];
    let reader = SimReader::new(data.clone(), vec![3, 4, 2]);
    let buffer: Vec<u8> = vec![0; 9];

    let mut f = reader.read_exact(buffer);
    let mut cell = ContextCell::new();
    match f.poll(&mut cell, cx()) {
        Poll::Ready(Ok(())) => {}
        _ => panic!("an always-ready source fills the buffer in one poll"),
    }
    let (_, filled) = f.into_parts();
    assert_eq!(filled, data);
}

#[test]
fn read_exact_signals_eof_when_the_source_runs_dry() {
    let reader = SimReader::new(vec![1, 2, 3, 4, 5], vec![3]);
    let buffer: Vec<u8> = vec![0; 9];

    let mut f = reader.read_exact(buffer);
    let mut cell = ContextCell::new();
    match f.poll(&mut cell, cx()) {
        Poll::Ready(Err(e)) => assert_eq!(e, Error::Eof),
        _ => panic!("five bytes cannot fill nine"),
    }
    // What did arrive is assembled in order at the front.
    let (_, partial) = f.into_parts();
    assert_eq!(&partial[..5], &[1, 2, 3, 4, 5]);
}

#[test]
fn write_all_performs_three_writes_of_five_five_two() {
    // A sink accepting at most 5 bytes per call, offered 12 bytes.
    let writer = SimWriter::new(5);
    let bytes: Vec<u8> = (1..=12).collect();

    let mut f = writer.write_all(bytes.clone());
    let mut cell = ContextCell::new();
    match f.poll(&mut cell, cx()) {
        Poll::Ready(Ok(())) => {}
        _ => panic!("an always-ready sink takes everything in one poll"),
    }
    let (writer, _) = f.into_parts();
    assert_eq!(writer.calls(), 3);
    assert_eq!(writer.into_accepted(), bytes);
}

#[test]
fn write_all_signals_write_zero_at_a_jammed_sink() {
    let writer = SimWriter::new(0);
    let mut f = writer.write_all(vec![1, 2, 3]);
    let mut cell = ContextCell::new();
    match f.poll(&mut cell, cx()) {
        Poll::Ready(Err(e)) => assert_eq!(e, Error::WriteZero),
        _ => panic!("a sink that accepts nothing ends the stream"),
    }
}

#[test]
fn single_read_delivers_one_chunk() {
    let reader = SimReader::new(vec![4, 5, 6], vec![2]);
    let mut f = reader.read(vec![0; 3]);
    let mut cell = ContextCell::new();
    match f.poll(&mut cell, cx()) {
        Poll::Ready(Ok(n)) => assert_eq!(n, 2),
        _ => panic!("the source is always ready"),
    }
    let (_, buffer) = f.into_parts();
    assert_eq!(buffer, vec![4, 5, 0]);
}

#[test]
fn single_write_respects_the_per_call_limit() {
    let writer = SimWriter::new(5);
    let mut f = writer.write(vec![9; 12]);
    let mut cell = ContextCell::new();
    match f.poll(&mut cell, cx()) {
        Poll::Ready(Ok(n)) => assert_eq!(n, 5),
        _ => panic!("the sink is always ready"),
    }
    let (writer, _) = f.into_parts();
    assert_eq!(writer.into_accepted(), vec![9; 5]);
}

#[test]
fn zero_read_only_at_exhaustion() {
    let reader = SimReader::new(vec![8], vec![1]);
    let mut f = reader.read(vec![0; 4]);
    let mut cell = ContextCell::new();
    match f.poll(&mut cell, cx()) {
        Poll::Ready(Ok(n)) => assert_eq!(n, 1),
        _ => panic!("the source is always ready"),
    }
    let (reader, _) = f.into_parts();
    let mut f2 = reader.read(vec![0; 4]);
    match f2.poll(&mut cell, cx()) {
        Poll::Ready(Ok(n)) => assert_eq!(n, 0),
        _ => panic!("an exhausted source reports zero"),
    }
}

#[test]
fn flush_shutdown_and_close_resolve_synchronously() {
    let writer = SimWriter::new(4);
    let mut cell = ContextCell::new();

    let mut f = embedded_platform::io::flush::flush(writer);
    match f.poll(&mut cell, cx()) {
        Poll::Ready(Ok(())) => {}
        _ => panic!("flush of an always-ready sink resolves at once"),
    }
    let writer = f.into_inner();

    let mut s = writer.shutdown();
    match s.poll(&mut cell, cx()) {
        Poll::Ready(Ok(())) => {}
        _ => panic!("shutdown of an always-ready sink resolves at once"),
    }
    let writer = s.into_inner();

    let mut c = embedded_platform::io::close::close(writer);
    match c.poll(&mut cell, cx()) {
        Poll::Ready(Ok(())) => {}
        _ => panic!("close of an always-ready sink resolves at once"),
    }
}

#[test]
fn read_exact_of_an_empty_buffer_is_already_done() {
    let reader = SimReader::new(vec![1, 2], vec![1]);
    let mut f = reader.read_exact(Vec::new());
    let mut cell = ContextCell::new();
    match f.poll(&mut cell, cx()) {
        Poll::Ready(Ok(())) => {}
        _ => panic!("nothing is owed for an empty buffer"),
    }
}

#[test]
fn write_all_of_nothing_succeeds_even_at_a_jammed_sink() {
    let writer = SimWriter::new(0);
    let mut f = writer.write_all(Vec::new());
    let mut cell = ContextCell::new();
    match f.poll(&mut cell, cx()) {
        Poll::Ready(Ok(())) => {}
        _ => panic!("nothing is owed for an empty input"),
    }
}
