use deflate_stream::{
    Coder, CoderAdapter, CoderError, DeflateDecoder, DeflateEncoder, Step, Upstream, MAX_LEVEL,
};
use std::io::Read;

trait Engine {
    fn poll_output(&mut self) -> Step;
    fn resume(&mut self, item: Upstream) -> Step;
    fn wants_input(&self) -> bool;
}

impl Engine for DeflateEncoder {
    fn poll_output(&mut self) -> Step {
        DeflateEncoder::poll_output(self)
    }
    fn resume(&mut self, item: Upstream) -> Step {
        DeflateEncoder::resume(self, item)
    }
    fn wants_input(&self) -> bool {
        DeflateEncoder::wants_input(self)
    }
}

impl Engine for DeflateDecoder {
    fn poll_output(&mut self) -> Step {
        DeflateDecoder::poll_output(self)
    }
    fn resume(&mut self, item: Upstream) -> Step {
        DeflateDecoder::resume(self, item)
    }
    fn wants_input(&self) -> bool {
        DeflateDecoder::wants_input(self)
    }
}

impl Engine for CoderAdapter {
    fn poll_output(&mut self) -> Step {
        CoderAdapter::poll_output(self)
    }
    fn resume(&mut self, item: Upstream) -> Step {
        CoderAdapter::resume(self, item)
    }
    fn wants_input(&self) -> bool {
        CoderAdapter::wants_input(self)
    }
}

/// Feeds `chunks` to the engine as a consumer would, and collects every output chunk
/// until the end or a failure.
fn run<E: Engine>(engine: &mut E, chunks: &[&[u8]]) -> (Vec<Vec<u8>>, Option<CoderError>) {
    let mut upstream = chunks.iter();
    let mut out = Vec::new();
    let mut step = engine.poll_output();
    loop {
        match step {
            Step::NeedInput => {
                assert!(engine.wants_input());
                let item = match upstream.next() {
                    Some(c) => Upstream::Chunk(c.to_vec()),
                    None => Upstream::Exhausted,
                };
                step = engine.resume(item);
            }
            Step::Emit(chunk) => {
                assert!(!chunk.is_empty());
                out.push(chunk);
                step = engine.poll_output();
            }
            Step::End => return (out, None),
            Step::Fail(e) => return (out, Some(e)),
            Step::Pending | Step::UpstreamFailed => panic!("unexpected step"),
        }
    }
}

fn compress(level: u32, chunks: &[&[u8]]) -> Vec<u8> {
    let (out, err) = run(&mut DeflateEncoder::new(level), chunks);
    assert!(err.is_none());
    out.concat()
}

fn decompress(chunks: &[&[u8]]) -> (Vec<u8>, Option<CoderError>) {
    let (out, err) = run(&mut DeflateDecoder::new(), chunks);
    (out.concat(), err)
}

/// Splits `data` into pieces whose lengths cycle through `sizes`.
fn split<'a>(data: &'a [u8], sizes: &[usize]) -> Vec<&'a [u8]> {
    let mut pieces = Vec::new();
    let mut at = 0;
    let mut k = 0;
    while at < data.len() {
        let end = (at + sizes[k % sizes.len()]).min(data.len());
        pieces.push(&data[at..end]);
        at = end;
        k += 1;
    }
    pieces
}

/// Bytes that compress poorly, from a fixed linear congruential sequence.
fn noise(n: usize) -> Vec<u8> {
    let mut x: u32 = 12345;
    (0..n)
        .map(|_| {
            x = x.wrapping_mul(1103515245).wrapping_add(12345);
            (x >> 16) as u8
        })
        .collect()
}

fn text(n: usize) -> Vec<u8> {
    b"the quick brown fox jumps over the lazy dog; "
        .iter()
        .cycle()
        .take(n)
        .copied()
        .collect()
}

#[test]
fn hello_world_round_trip() {
    let chunks: [&[u8]; 3] = [b"hel", b"lo wor", b"ld"];
    let compressed = compress(6, &chunks);
    assert!(!compressed.is_empty());
    let (out, err) = decompress(&[&compressed]);
    assert_eq!(err, None);
    assert_eq!(out, b"hello world".to_vec());
}

#[test]
fn round_trip_over_many_chunkings() {
    for data in [text(50_000), noise(40_000), b"a".to_vec()] {
        for sizes in [vec![1], vec![7, 1, 300], vec![4096], vec![100_000]] {
            let compressed = compress(6, &split(&data, &sizes));
            for back in [vec![1], vec![3, 17], vec![9000]] {
                let (out, err) = decompress(&split(&compressed, &back));
                assert_eq!(err, None);
                assert_eq!(out, data);
            }
        }
    }
}

#[test]
fn round_trip_at_every_level() {
    let data = text(20_000);
    for level in 0..=MAX_LEVEL {
        let compressed = compress(level, &split(&data, &[333]));
        let (out, err) = decompress(&[&compressed]);
        assert_eq!(err, None);
        assert_eq!(out, data);
    }
}

#[test]
fn output_does_not_depend_on_input_chunking() {
    let data = text(30_000);
    let whole = compress(6, &[&data]);
    assert_eq!(compress(6, &split(&data, &[1])), whole);
    assert_eq!(compress(6, &split(&data, &[5, 999, 2])), whole);
    let packed = compress(6, &[&data]);
    let (a, _) = decompress(&[&packed]);
    let (b, _) = decompress(&split(&packed, &[1]));
    assert_eq!(a, b);
}

#[test]
fn compressed_stream_is_standard_raw_deflate() {
    let data = text(10_000);
    let compressed = compress(9, &split(&data, &[123]));
    let mut out = Vec::new();
    flate2::read::DeflateDecoder::new(&compressed[..])
        .read_to_end(&mut out)
        .unwrap();
    assert_eq!(out, data);
    let mut reference = Vec::new();
    flate2::read::DeflateEncoder::new(&data[..], flate2::Compression::new(9))
        .read_to_end(&mut reference)
        .unwrap();
    let (back, err) = decompress(&split(&reference, &[50]));
    assert_eq!(err, None);
    assert_eq!(back, data);
}

#[test]
fn polling_after_the_end_keeps_ending() {
    let mut enc = DeflateEncoder::new(6);
    let (_, err) = run(&mut enc, &[b"abc"]);
    assert_eq!(err, None);
    for _ in 0..5 {
        assert!(matches!(enc.poll_output(), Step::End));
        assert!(!enc.wants_input());
    }
}

#[test]
fn polling_after_a_failure_ends() {
    let mut dec = DeflateDecoder::new();
    let (_, err) = run(&mut dec, &[&[0xff, 0xff, 0xff, 0xff]]);
    assert_eq!(err, Some(CoderError::Corrupt));
    for _ in 0..3 {
        assert!(matches!(dec.poll_output(), Step::End));
    }
}

#[test]
fn empty_input_gives_a_valid_nonempty_stream() {
    let compressed = compress(6, &[]);
    assert!(!compressed.is_empty());
    let (out, err) = decompress(&[&compressed]);
    assert_eq!(err, None);
    assert!(out.is_empty());
}

#[test]
fn empty_chunks_are_not_the_end() {
    let chunks: [&[u8]; 6] = [b"", b"hel", b"", b"", b"lo", b""];
    let compressed = compress(6, &chunks);
    let (out, err) = decompress(&[b"", &compressed, b""]);
    assert_eq!(err, None);
    assert_eq!(out, b"hello".to_vec());
}

#[test]
fn not_ready_leaves_the_adapter_untouched() {
    let data = text(5_000);
    let mut enc = DeflateEncoder::new(6);
    assert!(matches!(enc.poll_output(), Step::NeedInput));
    for _ in 0..4 {
        assert!(matches!(enc.resume(Upstream::NotReady), Step::Pending));
        assert!(enc.wants_input());
        assert!(matches!(enc.poll_output(), Step::NeedInput));
    }
    let mut out = Vec::new();
    let mut step = enc.resume(Upstream::Chunk(data.clone()));
    let mut sent = false;
    loop {
        match step {
            Step::NeedInput => {
                step = if sent {
                    enc.resume(Upstream::Exhausted)
                } else {
                    sent = true;
                    assert!(matches!(enc.resume(Upstream::NotReady), Step::Pending));
                    enc.poll_output()
                };
            }
            Step::Emit(c) => {
                out.extend_from_slice(&c);
                step = enc.poll_output();
            }
            Step::End => break,
            _ => panic!("unexpected step"),
        }
    }
    assert_eq!(out, compress(6, &[&data]));
}

#[test]
fn truncated_stream_is_an_error() {
    let data = text(3_000);
    let compressed = compress(6, &[&data]);
    let cut = &compressed[..compressed.len() - 1];
    let (_, err) = decompress(&[cut]);
    assert_eq!(err, Some(CoderError::Truncated));
    let (_, err) = decompress(&split(cut, &[2]));
    assert_eq!(err, Some(CoderError::Truncated));
}

#[test]
fn empty_compressed_input_is_truncated() {
    let (out, err) = decompress(&[]);
    assert!(out.is_empty());
    assert_eq!(err, Some(CoderError::Truncated));
}

#[test]
fn malformed_stream_is_corrupt() {
    let (_, err) = decompress(&[&[0xff, 0xff, 0xff, 0xff, 0xff]]);
    assert_eq!(err, Some(CoderError::Corrupt));
}

#[test]
fn bytes_after_the_stream_end_stall() {
    let mut compressed = compress(6, &[b"hello"]);
    compressed.extend_from_slice(b"trailing");
    let (out, err) = decompress(&[&compressed]);
    assert_eq!(out, b"hello".to_vec());
    assert_eq!(err, Some(CoderError::Stalled));
}

#[test]
fn the_two_byte_empty_stream_decodes_to_nothing() {
    let (out, err) = decompress(&[&[0x03, 0x00]]);
    assert_eq!(err, None);
    assert!(out.is_empty());
}

#[test]
fn bytes_after_the_stream_end_in_a_later_chunk_stall() {
    let compressed = compress(6, &[b"hello"]);
    let (out, err) = decompress(&[&compressed, b"x"]);
    assert_eq!(out, b"hello".to_vec());
    assert_eq!(err, Some(CoderError::Stalled));
}

#[test]
fn upstream_failure_stops_the_adapter() {
    let mut enc = DeflateEncoder::new(6);
    assert!(matches!(enc.poll_output(), Step::NeedInput));
    assert!(matches!(enc.resume(Upstream::Chunk(b"abc".to_vec())), Step::NeedInput));
    assert!(matches!(enc.resume(Upstream::Failed), Step::UpstreamFailed));
    assert!(!enc.wants_input());
    assert!(matches!(enc.poll_output(), Step::End));
}

#[test]
fn generic_adapter_matches_the_facades() {
    let data = noise(20_000);
    let mut adapter = CoderAdapter::new(Coder::deflate(3));
    let (out, err) = run(&mut adapter, &split(&data, &[700]));
    assert_eq!(err, None);
    assert_eq!(out.concat(), compress(3, &[&data]));
    let mut back = CoderAdapter::new(Coder::inflate());
    let (plain, err) = run(&mut back, &[&out.concat()]);
    assert_eq!(err, None);
    assert_eq!(plain.concat(), data);
    assert!(adapter.is_finished() && back.is_finished());
}

#[test]
fn large_output_comes_in_several_chunks() {
    let data = noise(100_000);
    let (out, err) = run(&mut DeflateEncoder::new(0), &[&data]);
    assert_eq!(err, None);
    assert!(out.len() > 1);
    assert!(out.iter().all(|c| !c.is_empty() && c.len() <= deflate_stream::adapter::SCRATCH_CAPACITY));
    let (plain, err) = run(&mut DeflateDecoder::new(), &[&out.concat()]);
    assert_eq!(err, None);
    assert!(plain.len() > 1);
    assert_eq!(plain.concat(), data);
}
