use ps_deflate::{compress, compress_into, decompress, decompress_into, Codec, PsDeflateError};

fn sample_text() -> Vec<u8> {
    let text: &[u8] = b"the quick brown fox jumps over the lazy dog ";
    let mut data = Vec::new();
    for i in 0..100usize {
        data.push(text[i % text.len()]);
    }
    data
}

#[test]
fn empty_input_round_trips() {
    let compressed = compress(&[]).unwrap();
    assert!(compressed.len() <= 5);
    assert!(!compressed.is_empty());
    let restored = decompress(compressed.as_slice(), 0).unwrap();
    assert_eq!(restored.len(), 0);
}

#[test]
fn repeated_bytes_compress_dramatically() {
    let data = vec![0x61u8; 10_000];
    let compressed = compress(&data).unwrap();
    assert!(compressed.len() < 1_000);
    let restored = decompress(compressed.as_slice(), data.len()).unwrap();
    assert_eq!(restored.as_slice(), data.as_slice());
}

#[test]
fn round_trip_various_inputs() {
    let mut inputs: Vec<Vec<u8>> = vec![
        b"hello world".to_vec(),
        vec![0u8; 333],
        (0..=255u8).collect(),
    ];
    let mut mixed = Vec::new();
    for i in 0..4_096usize {
        mixed.push((i * 7 % 251) as u8);
    }
    inputs.push(mixed);
    for data in inputs {
        let compressed = compress(&data).unwrap();
        let restored = decompress(compressed.as_slice(), data.len()).unwrap();
        assert_eq!(restored.as_slice(), data.as_slice());
    }
}

#[test]
fn compressed_size_within_worst_case_bound() {
    for data in [&b""[..], &b"a"[..], &b"abcabcabc"[..], &[0x00u8; 64][..]] {
        let compressed = compress(data).unwrap();
        assert!(compressed.len() <= data.len() + 5);
    }
}

#[test]
fn returned_length_is_written_length_not_capacity() {
    let data = sample_text();
    let compressed = compress(&data).unwrap();
    // Repetitive text compresses, so the buffer must have been truncated
    // below its allocated capacity of `len + 5`.
    assert!(compressed.len() < data.len() + 5);

    // An oversized declared size must still yield exactly the payload.
    let restored = decompress(compressed.as_slice(), data.len() + 100).unwrap();
    assert_eq!(restored.len(), data.len());
    assert_eq!(restored.as_slice(), data.as_slice());
}

#[test]
fn decompress_into_short_buffer_is_insufficient_space() {
    let data = sample_text();
    let compressed = compress(&data).unwrap();
    let mut out = vec![0u8; 10];
    let result = decompress_into(compressed.as_slice(), &mut out);
    assert_eq!(result, Err(PsDeflateError::InsufficientSpace));
}

#[test]
fn decompress_short_declared_size_is_insufficient_space() {
    let data = sample_text();
    let compressed = compress(&data).unwrap();
    let result = decompress(compressed.as_slice(), data.len() - 1);
    assert_eq!(result.unwrap_err(), PsDeflateError::InsufficientSpace);
}

#[test]
fn compress_into_short_buffer_is_insufficient_space() {
    let data = sample_text();
    let mut out = vec![0u8; 1];
    let result = compress_into(&data, &mut out);
    assert_eq!(result, Err(PsDeflateError::InsufficientSpace));
}

#[test]
fn bad_data_is_reported_not_decoded() {
    // 0xFF opens a block with the reserved block type, which no DEFLATE
    // decoder accepts.
    let garbage = vec![0xFFu8; 32];
    let result = decompress(&garbage, 1_024);
    assert_eq!(result.unwrap_err(), PsDeflateError::BadData);

    let mut out = vec![0u8; 1_024];
    let result = decompress_into(&garbage, &mut out);
    assert_eq!(result, Err(PsDeflateError::BadData));
}

#[test]
fn empty_stream_is_bad_data() {
    let result = decompress(&[], 16);
    assert_eq!(result.unwrap_err(), PsDeflateError::BadData);
}

#[test]
fn impossible_allocation_is_a_buffer_error() {
    let compressed = compress(b"payload").unwrap();
    let result = decompress(compressed.as_slice(), usize::MAX);
    match result {
        Err(PsDeflateError::BufferError(_)) => {}
        other => panic!("expected a buffer error, got {other:?}"),
    }
}

#[test]
fn compress_into_reports_written_length() {
    let data = sample_text();
    let mut out = vec![0u8; data.len() + 5];
    let written = compress_into(&data, &mut out).unwrap();
    assert!(written <= out.len());

    let mut restored = vec![0u8; data.len()];
    let read = decompress_into(&out[..written], &mut restored).unwrap();
    assert_eq!(read, data.len());
    assert_eq!(restored.as_slice(), data.as_slice());
}

#[test]
fn sequential_calls_reuse_one_handle() {
    let data = sample_text();
    let mut codec = Codec::new();
    let first = codec.compress(&data).unwrap();
    for _ in 0..5 {
        let again = codec.compress(&data).unwrap();
        assert_eq!(again.as_slice(), first.as_slice());
    }
    let restored = codec.decompress(first.as_slice(), data.len()).unwrap();
    assert_eq!(restored.as_slice(), data.as_slice());
}

#[test]
fn handles_are_independent() {
    let data = sample_text();
    let mut one = Codec::new();
    let mut two = Codec::default();
    let from_one = one.compress(&data).unwrap();
    let from_two = two.compress(&data).unwrap();
    assert_eq!(from_one.as_slice(), from_two.as_slice());

    // A clone is a brand-new handle, not a copy of pooled state, and an
    // interleaved call on it changes nothing for the original.
    let mut three = one.clone();
    let from_three = three.compress(&data).unwrap();
    assert_eq!(from_three.as_slice(), from_one.as_slice());
    let restored = one.decompress(from_three.as_slice(), data.len()).unwrap();
    assert_eq!(restored.as_slice(), data.as_slice());
}

#[test]
fn round_trip_helper_recovers_input() {
    let data = sample_text();
    let mut codec = Codec::new();
    let restored = ps_deflate::round_trip(&mut codec, &data).unwrap();
    assert_eq!(restored.as_slice(), data.as_slice());
}

#[test]
fn methods_and_free_functions_agree() {
    let data = sample_text();
    let mut codec = Codec::new();
    let via_method = codec.compress(&data).unwrap();
    let via_free = compress(&data).unwrap();
    assert_eq!(via_method.as_slice(), via_free.as_slice());

    let mut out_a = vec![0u8; data.len() + 5];
    let mut out_b = vec![0u8; data.len() + 5];
    let n_a = codec.compress_into(&data, &mut out_a).unwrap();
    let n_b = compress_into(&data, &mut out_b).unwrap();
    assert_eq!(n_a, n_b);
    assert_eq!(out_a[..n_a], out_b[..n_b]);
}
