use std::cell::Cell;

use mz_stream::deflate::{compress_to_vec, compress_to_vec_callback, deflate, Compressor};
use mz_stream::inflate::{
    decompress_to_vec, decompress_to_vec_callback, decompress_to_vec_with_limit,
    decompress_to_vec_zlib, decompress_to_vec_zlib_with_limit, TINFLStatus,
};
use mz_stream::{MZError, MZFlush, MZStatus};

const ENCODED: [u8; 20] = [
    120, 156, 243, 72, 205, 201, 201, 215, 81, 168, 202, 201, 76, 82, 4, 0, 27, 101, 4, 19,
];

fn sample_data() -> Vec<u8> {
    let mut data = Vec::new();
    for i in 0..8192usize {
        data.push((i % 251) as u8);
        if i % 7 == 0 {
            data.push(b'z');
        }
    }
    data.extend_from_slice(b"Hello zlib! Hello zlib! Hello zlib!");
    data
}

#[test]
fn test_state() {
    let data = b"Hello zlib!";
    let mut compressed = vec![0; 50];
    let mut compressor = Compressor::default();
    let res = deflate(&mut compressor, data, &mut compressed, MZFlush::Finish);
    let status = res.status.expect("Failed to compress!");
    let decomp =
        decompress_to_vec_zlib(&compressed).expect("Failed to decompress compressed data");
    assert_eq!(status, MZStatus::StreamEnd);
    assert_eq!(decomp[..], data[..]);
    assert_eq!(res.bytes_consumed, data.len());
}

#[test]
fn decompress_vec() {
    let res = decompress_to_vec_zlib(&ENCODED[..]).unwrap();
    assert_eq!(res.as_slice(), &b"Hello, zlib!"[..]);
}

#[test]
fn decompress_vec_with_high_limit() {
    let res = decompress_to_vec_zlib_with_limit(&ENCODED[..], 100_000).unwrap();
    assert_eq!(res.as_slice(), &b"Hello, zlib!"[..]);
}

#[test]
fn fail_to_decompress_with_limit() {
    let res = decompress_to_vec_zlib_with_limit(&ENCODED[..], 8);
    match res {
        Err(e) if e.status == TINFLStatus::HasMoreOutput => (), // expected result
        _ => panic!("Decompression output size limit was not enforced"),
    }
}

#[test]
fn round_trip_all_levels() {
    let data = sample_data();
    for level in 0..=10u8 {
        let compressed = compress_to_vec(&data, level).expect("compression failed");
        let decompressed = decompress_to_vec(&compressed).expect("decompression failed");
        assert_eq!(decompressed, data);
    }
}

#[test]
fn round_trip_zlib_framing() {
    let data = sample_data();
    for level in [0u8, 1, 6, 10] {
        let mut compressor = Compressor::new(true, level);
        let mut out = vec![0u8; data.len() * 2 + 1024];
        let res = deflate(&mut compressor, &data, &mut out, MZFlush::Finish);
        assert_eq!(res.status, Ok(MZStatus::StreamEnd));
        assert_eq!(res.bytes_consumed, data.len());
        let decompressed = decompress_to_vec_zlib(&out[..res.bytes_written]).unwrap();
        assert_eq!(decompressed, data);
    }
}

#[test]
fn round_trip_empty_input() {
    let compressed = compress_to_vec(b"", 6).expect("compression failed");
    let decompressed = decompress_to_vec(&compressed).expect("decompression failed");
    assert!(decompressed.is_empty());
}

#[test]
fn finish_after_stream_end_is_idempotent() {
    let mut compressor = Compressor::default();
    let mut out = vec![0u8; 256];
    let res = deflate(&mut compressor, b"hello", &mut out, MZFlush::Finish);
    assert_eq!(res.status, Ok(MZStatus::StreamEnd));
    let res2 = deflate(&mut compressor, b"more", &mut out, MZFlush::Finish);
    assert_eq!(res2.status, Ok(MZStatus::StreamEnd));
    assert_eq!(res2.bytes_consumed, 0);
    assert_eq!(res2.bytes_written, 0);
}

#[test]
fn driving_a_terminated_stream_without_finish_is_an_error() {
    let mut compressor = Compressor::default();
    let mut out = vec![0u8; 256];
    let res = deflate(&mut compressor, b"hello", &mut out, MZFlush::Finish);
    assert_eq!(res.status, Ok(MZStatus::StreamEnd));
    let res2 = deflate(&mut compressor, b"more", &mut out, MZFlush::NoFlush);
    assert_eq!(res2.status, Err(MZError::Buf));
    assert_eq!(res2.bytes_consumed, 0);
    assert_eq!(res2.bytes_written, 0);
}

#[test]
fn empty_output_buffer_is_a_parameter_violation() {
    let mut compressor = Compressor::default();
    let mut out: Vec<u8> = Vec::new();
    let res = deflate(&mut compressor, b"hello", &mut out, MZFlush::Finish);
    assert_eq!(res.status, Err(MZError::Buf));
    assert_eq!(res.bytes_consumed, 0);
    assert_eq!(res.bytes_written, 0);
}

#[test]
fn no_input_no_flush_no_progress_is_an_error() {
    let mut compressor = Compressor::default();
    let mut out = vec![0u8; 256];
    let res = deflate(&mut compressor, b"", &mut out, MZFlush::NoFlush);
    assert_eq!(res.status, Err(MZError::Buf));
    assert_eq!(res.bytes_consumed, 0);
    assert_eq!(res.bytes_written, 0);
}

#[test]
fn compress_progress_increments_sum_to_input_length() {
    let data = sample_data();
    let total = Cell::new(0usize);
    let calls = Cell::new(0usize);
    let with_callback = compress_to_vec_callback(&data, 6, 1024, |n: usize| {
        total.set(total.get() + n);
        calls.set(calls.get() + 1);
    })
    .expect("compression failed");
    assert_eq!(total.get(), data.len());
    assert!(calls.get() >= data.len() / 1024);
    // the callback form produces byte-identical output to the plain form
    let plain = compress_to_vec(&data, 6).expect("compression failed");
    assert_eq!(with_callback, plain);
}

#[test]
fn decompress_progress_increments_sum_to_compressed_length() {
    let data = sample_data();
    let compressed = compress_to_vec(&data, 6).expect("compression failed");
    let total = Cell::new(0usize);
    let decompressed = decompress_to_vec_callback(&compressed, |n: usize| {
        total.set(total.get() + n);
    })
    .expect("decompression failed");
    assert_eq!(decompressed, data);
    assert_eq!(total.get(), compressed.len());
}

#[test]
fn limit_below_output_fails_with_has_more_output() {
    let data = sample_data();
    let compressed = compress_to_vec(&data, 6).expect("compression failed");
    let cap = data.len() / 2;
    let err = decompress_to_vec_with_limit(&compressed, cap).unwrap_err();
    assert_eq!(err.status, TINFLStatus::HasMoreOutput);
    assert!(err.output.len() <= cap);
    assert_eq!(err.message(), "Output size exceeded the specified limit");
}

#[test]
fn corrupted_stream_never_succeeds_wrongly() {
    for i in 0..ENCODED.len() {
        let mut corrupted = ENCODED.to_vec();
        corrupted[i] ^= 0xFF;
        match decompress_to_vec_zlib(&corrupted) {
            Ok(v) => assert_eq!(v.as_slice(), &b"Hello, zlib!"[..]),
            Err(e) => assert_ne!(e.status, TINFLStatus::Done),
        }
    }
}

#[test]
fn checksum_mismatch_is_reported() {
    let mut corrupted = ENCODED.to_vec();
    let last = corrupted.len() - 1;
    corrupted[last] ^= 0xFF;
    let err = decompress_to_vec_zlib(&corrupted).unwrap_err();
    assert_eq!(err.status, TINFLStatus::Adler32Mismatch);
    assert_eq!(err.msg, "");
    assert_eq!(err.message(), "Adler32 checksum mismatch");
    // everything validly produced before the mismatch is preserved
    assert_eq!(err.output.as_slice(), &b"Hello, zlib!"[..]);
}

#[test]
fn back_reference_before_stream_start_is_rejected() {
    // A raw DEFLATE stream whose first symbol is a length 3, distance 1
    // back-reference: nothing has been produced yet, so the distance is out
    // of range and decoding must fail rather than read out of bounds.
    let stream = [0x03u8, 0x02, 0x00];
    let err = decompress_to_vec(&stream).unwrap_err();
    assert_eq!(err.status, TINFLStatus::Failed);
    assert_eq!(err.message(), "Invalid input data");
}

#[test]
fn truncated_stream_cannot_make_progress() {
    let err = decompress_to_vec_zlib(&ENCODED[..10]).unwrap_err();
    assert_eq!(err.status, TINFLStatus::FailedCannotMakeProgress);
    assert_eq!(err.msg, "");
    assert_eq!(err.message(), "Truncated input stream");
    // the error carries exactly the bytes produced before the input ran out
    assert!(b"Hello, zlib!".starts_with(&err.output));
}

#[test]
fn status_codes_map_exactly() {
    assert_eq!(
        TINFLStatus::from_i32(-4),
        Some(TINFLStatus::FailedCannotMakeProgress)
    );
    assert_eq!(TINFLStatus::from_i32(-3), Some(TINFLStatus::BadParam));
    assert_eq!(TINFLStatus::from_i32(-2), Some(TINFLStatus::Adler32Mismatch));
    assert_eq!(TINFLStatus::from_i32(-1), Some(TINFLStatus::Failed));
    assert_eq!(TINFLStatus::from_i32(0), Some(TINFLStatus::Done));
    assert_eq!(TINFLStatus::from_i32(1), Some(TINFLStatus::NeedsMoreInput));
    assert_eq!(TINFLStatus::from_i32(2), Some(TINFLStatus::HasMoreOutput));
    assert_eq!(TINFLStatus::from_i32(3), None);
    assert_eq!(TINFLStatus::from_i32(-5), None);
    assert_eq!(TINFLStatus::from_i32(10), None);
}

#[test]
fn sync_flush_keeps_stream_decodable() {
    let part1 = b"Hello zlib! ";
    let part2 = b"And hello again.";
    let mut compressor = Compressor::new(false, 6);
    let mut out1 = vec![0u8; 1024];
    let r1 = deflate(&mut compressor, part1, &mut out1, MZFlush::Sync);
    assert_eq!(r1.status, Ok(MZStatus::Okay));
    assert_eq!(r1.bytes_consumed, part1.len());
    let mut out2 = vec![0u8; 1024];
    let r2 = deflate(&mut compressor, part2, &mut out2, MZFlush::Finish);
    assert_eq!(r2.status, Ok(MZStatus::StreamEnd));
    assert_eq!(r2.bytes_consumed, part2.len());
    let mut stream = out1[..r1.bytes_written].to_vec();
    stream.extend_from_slice(&out2[..r2.bytes_written]);
    let decompressed = decompress_to_vec(&stream).unwrap();
    let mut expected = part1.to_vec();
    expected.extend_from_slice(part2);
    assert_eq!(decompressed, expected);
}

#[test]
fn compression_resumes_across_small_output_buffers() {
    let data = sample_data();
    let mut compressor = Compressor::new(false, 6);
    let mut stream: Vec<u8> = Vec::new();
    let mut in_pos = 0usize;
    loop {
        let mut out = vec![0u8; 64];
        let res = deflate(&mut compressor, &data[in_pos..], &mut out, MZFlush::Finish);
        in_pos += res.bytes_consumed;
        stream.extend_from_slice(&out[..res.bytes_written]);
        match res.status {
            Ok(MZStatus::StreamEnd) => break,
            Ok(MZStatus::Okay) => {}
            Err(e) => panic!("unexpected compressor error {:?}", e),
        }
    }
    assert_eq!(in_pos, data.len());
    assert_eq!(decompress_to_vec(&stream).unwrap(), data);
}

#[test]
fn decompress_progress_covers_unconsumed_trailing_bytes() {
    let data = sample_data();
    let mut compressed = compress_to_vec(&data, 6).expect("compression failed");
    compressed.extend_from_slice(&[0u8; 37]);
    let total = Cell::new(0usize);
    let decompressed = decompress_to_vec_callback(&compressed, |n: usize| {
        total.set(total.get() + n);
    })
    .expect("decompression failed");
    assert_eq!(decompressed, data);
    assert_eq!(total.get(), compressed.len());
}

#[test]
fn error_carries_partial_output() {
    let data = sample_data();
    let compressed = compress_to_vec(&data, 6).expect("compression failed");
    let err = decompress_to_vec_with_limit(&compressed, 100).unwrap_err();
    assert_eq!(err.status, TINFLStatus::HasMoreOutput);
    assert_eq!(err.msg, "");
    assert!(!err.output.is_empty());
    assert!(err.output.len() <= 100);
    assert_eq!(&err.output[..], &data[..err.output.len()]);
}

#[test]
fn status_codes_expose_engine_numbers() {
    assert_eq!(TINFLStatus::IoError.code(), 10);
    assert_eq!(TINFLStatus::FailedCannotMakeProgress.code(), -4);
    assert_eq!(TINFLStatus::BadParam.code(), -3);
    assert_eq!(TINFLStatus::Adler32Mismatch.code(), -2);
    assert_eq!(TINFLStatus::Failed.code(), -1);
    assert_eq!(TINFLStatus::Done.code(), 0);
    assert_eq!(TINFLStatus::NeedsMoreInput.code(), 1);
    assert_eq!(TINFLStatus::HasMoreOutput.code(), 2);
    let engine_statuses = [
        TINFLStatus::FailedCannotMakeProgress,
        TINFLStatus::BadParam,
        TINFLStatus::Adler32Mismatch,
        TINFLStatus::Failed,
        TINFLStatus::Done,
        TINFLStatus::NeedsMoreInput,
        TINFLStatus::HasMoreOutput,
    ];
    for status in engine_statuses {
        assert_eq!(TINFLStatus::from_i32(status.code()), Some(status));
    }
    // the I/O error belongs to this layer, not the engine
    assert_eq!(TINFLStatus::from_i32(TINFLStatus::IoError.code()), None);
}
