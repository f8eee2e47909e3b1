use remu_playback::mvec_bytes::{MVecBytesReader, MVecBytesWrapper, ReadPlan};
use remu_playback::mvec_u8::{MVecU8Reader, MVecU8Wrapper};
use remu_playback::reader::{AppendableDataWrapper, ReadStep, SeekError, SeekFrom};

fn chunks_of(w: &MVecBytesWrapper) -> Vec<Vec<u8>> {
    w.data().iter().map(|b| b.to_vec()).collect()
}

fn bytes(range: std::ops::Range<u32>) -> Vec<u8> {
    range.map(|i| (i % 251) as u8).collect()
}

#[test]
fn chunking_splits_and_concatenates() {
    let mut w = MVecBytesWrapper::new(4);
    w.append_data(&[1, 2, 3]);
    w.append_data(&[4, 5, 6, 7, 8, 9, 10]);
    w.append_data(&[]);
    assert_eq!(chunks_of(&w), vec![vec![1, 2, 3, 4], vec![5, 6, 7, 8]]);
    assert_eq!(w.produced_bytes(), 8);
    w.complete();
    assert!(w.completed());
    assert_eq!(chunks_of(&w), vec![vec![1, 2, 3, 4], vec![5, 6, 7, 8], vec![9, 10]]);
    assert_eq!(w.produced_bytes(), 10);
}

#[test]
fn exact_fill_freezes_chunk() {
    let mut w = MVecBytesWrapper::new(3);
    w.append_data(&[7, 8]);
    assert!(w.data().is_empty());
    w.append_data(&[9]);
    assert_eq!(chunks_of(&w), vec![vec![7, 8, 9]]);
    w.complete();
    assert_eq!(chunks_of(&w), vec![vec![7, 8, 9]]);
}

#[test]
fn large_append_cuts_whole_chunks() {
    let mut w = MVecBytesWrapper::new(1024);
    let input = bytes(0..5000);
    w.append_data(&input[..100]);
    w.append_data(&input[100..]);
    w.complete();
    let chunks = chunks_of(&w);
    assert_eq!(chunks.len(), 5);
    for c in &chunks[..4] {
        assert_eq!(c.len(), 1024);
    }
    assert_eq!(chunks[4].len(), 5000 - 4 * 1024);
    assert_eq!(chunks.concat(), input);
}

#[test]
fn append_after_complete_is_ignored() {
    let mut w = MVecBytesWrapper::new(2);
    w.append_data(&[1]);
    w.complete();
    w.append_data(&[2, 3, 4]);
    assert_eq!(chunks_of(&w), vec![vec![1]]);
    assert_eq!(w.produced_bytes(), 1);
}

#[test]
fn set_capacity_keeps_contents() {
    let mut w = MVecBytesWrapper::new(4);
    w.append_data(&[1, 2, 3, 4, 5]);
    w.set_capacity(1 << 20);
    w.append_data(&[6]);
    w.complete();
    assert_eq!(chunks_of(&w), vec![vec![1, 2, 3, 4], vec![5, 6]]);
    assert_eq!(w.chunk_size(), 4);
}

#[test]
fn reader_blocks_then_resumes() {
    let mut w = MVecBytesWrapper::new(1024);
    let input = bytes(0..1536);
    w.append_data(&input[..512]);
    let mut r = MVecBytesReader::new(&w);
    let mut buf = vec![0u8; 4096];
    assert_eq!(r.try_read(&w, &mut buf), ReadStep::Wait);
    assert_eq!(r.position(), 0);
    w.append_data(&input[512..]);
    let first = r.try_read(&w, &mut buf);
    match first {
        ReadStep::Read(n) => {
            assert!(n > 0);
            assert_eq!(n, 1024);
            assert_eq!(&buf[..n], &input[..n]);
        }
        ReadStep::Wait => panic!("data was available"),
    }
    assert_eq!(r.try_read(&w, &mut buf), ReadStep::Wait);
    w.complete();
    assert_eq!(r.try_read(&w, &mut buf), ReadStep::Read(512));
    assert_eq!(&buf[..512], &input[1024..]);
    assert_eq!(r.try_read(&w, &mut buf), ReadStep::Read(0));
    assert_eq!(r.position(), 1536);
}

#[test]
fn read_spans_several_chunks_from_an_offset() {
    let mut w = MVecBytesWrapper::new(4);
    let input = bytes(0..18);
    w.append_data(&input);
    let mut r = MVecBytesReader::new(&w);
    assert_eq!(r.seek(SeekFrom::Start(3)), Ok(3));
    let mut buf = vec![0xAAu8; 12];
    assert_eq!(r.read_step(&w, false, &mut buf[..10]), ReadStep::Read(10));
    assert_eq!(&buf[..10], &input[3..13]);
    assert_eq!(&buf[10..], &[0xAA, 0xAA]);
    assert_eq!(r.position(), 13);
    // Only 16 bytes are frozen; the last 2 wait in the tail.
    assert_eq!(r.read_step(&w, false, &mut buf), ReadStep::Read(3));
    assert_eq!(&buf[..3], &input[13..16]);
    assert_eq!(r.read_step(&w, false, &mut buf), ReadStep::Wait);
}

#[test]
fn read_at_end_of_complete_stream_returns_zero() {
    let mut w = MVecBytesWrapper::new(8);
    w.append_data(&[1, 2, 3]);
    w.complete();
    let mut r = MVecBytesReader::new(&w);
    r.seek(SeekFrom::Start(100)).unwrap();
    let mut buf = [9u8; 4];
    assert_eq!(r.read_step(&w, false, &mut buf), ReadStep::Read(0));
    assert_eq!(buf, [9, 9, 9, 9]);
    assert_eq!(r.position(), 100);
}

#[test]
fn cancelled_reader_stops_waiting() {
    let w = MVecBytesWrapper::new(8);
    let mut r = MVecBytesReader::new(&w);
    let mut buf = [0u8; 4];
    assert_eq!(r.read_step(&w, false, &mut buf), ReadStep::Wait);
    assert_eq!(r.read_step(&w, true, &mut buf), ReadStep::Read(0));
    let token = r.cancellation_token();
    assert_eq!(r.try_read(&w, &mut buf), ReadStep::Wait);
    token.cancel();
    assert_eq!(r.try_read(&w, &mut buf), ReadStep::Read(0));
}

#[test]
fn seek_round_trip() {
    let w = MVecBytesWrapper::new(8);
    let mut r = MVecBytesReader::new(&w);
    assert_eq!(r.seek(SeekFrom::Start(42)), Ok(42));
    assert_eq!(r.position(), 42);
    assert_eq!(r.seek(SeekFrom::Current(-2)), Ok(40));
    assert_eq!(r.seek(SeekFrom::Current(10)), Ok(50));
    assert_eq!(r.position(), 50);
    assert_eq!(r.seek(SeekFrom::End(0)), Err(SeekError::EndUnsupported));
    assert_eq!(r.position(), 50);
    assert_eq!(r.seek(SeekFrom::Current(-51)), Err(SeekError::InvalidPosition));
    assert_eq!(r.position(), 50);
    assert_eq!(r.seek(SeekFrom::Current(-50)), Ok(0));
    assert_eq!(r.seek(SeekFrom::Start(u64::MAX - 1)), Ok(u64::MAX - 1));
    assert_eq!(r.seek(SeekFrom::Current(2)), Err(SeekError::InvalidPosition));
    assert_eq!(r.seek(SeekFrom::Current(1)), Ok(u64::MAX));
}

#[test]
fn flat_buffer_reads_and_ends() {
    let mut w = MVecU8Wrapper::new();
    let mut r = MVecU8Reader::new();
    let mut buf = [0u8; 3];
    assert_eq!(r.try_read(&w, &mut buf), ReadStep::Wait);
    w.append_data(&[1, 2, 3, 4, 5]);
    assert_eq!(w.data(), &vec![1, 2, 3, 4, 5]);
    assert_eq!(r.read_step(&w, false, &mut buf), ReadStep::Read(3));
    assert_eq!(buf, [1, 2, 3]);
    assert_eq!(r.read_step(&w, false, &mut buf), ReadStep::Read(2));
    assert_eq!(&buf[..2], &[4, 5]);
    assert_eq!(r.read_step(&w, false, &mut buf), ReadStep::Wait);
    w.complete();
    assert!(w.completed());
    w.append_data(&[6]);
    assert_eq!(w.data().len(), 5);
    assert_eq!(r.read_step(&w, false, &mut buf), ReadStep::Read(0));
    assert_eq!(r.seek(SeekFrom::Current(-4)), Ok(1));
    assert_eq!(r.read_step(&w, false, &mut buf), ReadStep::Read(3));
    assert_eq!(buf, [2, 3, 4]);
    let token = r.cancellation_token();
    token.cancel();
    let mut r2 = MVecU8Reader::new();
    assert_eq!(r2.seek(SeekFrom::End(-1)), Err(SeekError::EndUnsupported));
    assert_eq!(r2.position(), 0);
}

fn planned_copy(r: &mut MVecBytesReader, w: &MVecBytesWrapper, buf: &mut [u8]) -> Option<usize> {
    match r.plan(w, false, buf.len()) {
        ReadPlan::Copy(window) => Some(r.copy_window(&window, buf)),
        ReadPlan::Finished => Some(0),
        ReadPlan::Wait => None,
    }
}

#[test]
fn two_phase_read_matches_one_step() {
    let mut w = MVecBytesWrapper::new(4);
    let input = bytes(0..18);
    w.append_data(&input);
    let mut r = MVecBytesReader::new(&w);
    r.seek(SeekFrom::Start(3)).unwrap();
    let mut buf = vec![0xAAu8; 12];
    assert_eq!(planned_copy(&mut r, &w, &mut buf[..10]), Some(10));
    assert_eq!(&buf[..10], &input[3..13]);
    assert_eq!(&buf[10..], &[0xAA, 0xAA]);
    assert_eq!(planned_copy(&mut r, &w, &mut buf), Some(3));
    assert_eq!(&buf[..3], &input[13..16]);
    assert_eq!(planned_copy(&mut r, &w, &mut buf), None);
    w.complete();
    assert_eq!(planned_copy(&mut r, &w, &mut buf), Some(2));
    assert_eq!(&buf[..2], &input[16..18]);
    assert_eq!(planned_copy(&mut r, &w, &mut buf), Some(0));
    assert_eq!(r.position(), 18);
}

#[test]
fn plan_stops_when_cancelled_or_empty_request() {
    let mut w = MVecBytesWrapper::new(4);
    let r = MVecBytesReader::new(&w);
    assert!(matches!(r.plan(&w, false, 8), ReadPlan::Wait));
    assert!(matches!(r.plan(&w, true, 8), ReadPlan::Finished));
    w.append_data(&[1, 2, 3, 4]);
    assert!(matches!(r.plan(&w, false, 0), ReadPlan::Finished));
    assert!(matches!(r.plan(&w, false, 1), ReadPlan::Copy(_)));
}

#[test]
fn window_outside_position_copies_nothing() {
    let mut w = MVecBytesWrapper::new(4);
    w.append_data(&[1, 2, 3, 4, 5, 6, 7, 8]);
    let mut r = MVecBytesReader::new(&w);
    let window = match r.plan(&w, false, 4) {
        ReadPlan::Copy(window) => window,
        _ => panic!("data was available"),
    };
    assert_eq!(window.len_bytes(), 4);
    r.seek(SeekFrom::Start(6)).unwrap();
    let mut buf = [0u8; 4];
    assert_eq!(r.copy_window(&window, &mut buf), 0);
    assert_eq!(buf, [0, 0, 0, 0]);
    assert_eq!(r.position(), 6);
}

#[test]
fn large_read_spans_many_chunks() {
    let mut w = MVecBytesWrapper::new(1024);
    let input = bytes(0..10_000);
    w.append_data(&input);
    w.complete();
    let mut r = MVecBytesReader::new(&w);
    r.seek(SeekFrom::Start(1000)).unwrap();
    let mut buf = vec![0u8; 5000];
    assert_eq!(planned_copy(&mut r, &w, &mut buf), Some(5000));
    assert_eq!(&buf[..], &input[1000..6000]);
    let mut rest = vec![0u8; 8000];
    assert_eq!(planned_copy(&mut r, &w, &mut rest), Some(4000));
    assert_eq!(&rest[..4000], &input[6000..]);
}

#[test]
fn chunking_holds_for_many_split_patterns() {
    let input = bytes(0..3000);
    for chunk_size in [1usize, 2, 7, 64, 1000, 4096] {
        for step in [1usize, 3, 64, 999, 2500] {
            let mut w = MVecBytesWrapper::new(chunk_size);
            for piece in input.chunks(step) {
                w.append_data(piece);
            }
            w.complete();
            let chunks = chunks_of(&w);
            assert_eq!(chunks.concat(), input);
            let (last, full) = chunks.split_last().unwrap();
            assert!(full.iter().all(|c| c.len() == chunk_size));
            assert!(!last.is_empty() && last.len() <= chunk_size);
        }
    }
}

#[test]
fn flat_buffer_capacity_keeps_contents() {
    let mut w = MVecU8Wrapper::new();
    w.append_data(&[1, 2]);
    w.set_capacity(1024);
    w.set_capacity(1);
    assert_eq!(w.data(), &vec![1, 2]);
}
