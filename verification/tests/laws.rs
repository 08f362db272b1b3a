use compression_multiplexer::dispatcher::MultiplexerImpl;
use compression_multiplexer::openzl_ffi::{zl_compress_bound, ZlCParam, ZlReport};
use compression_multiplexer::providers::{
    algorithm_description, get_provider, le32_decode, le32_encode, Algorithm, Bzip2Provider,
    CompressionProvider, DeflateProvider, Lz4Provider, LzmaProvider, OpenZlProvider, StoreProvider,
    ZstdProvider,
};
use compression_multiplexer::text::{decimal_i64, decimal_u64, join2, join3};
use compression_multiplexer::{Compressor, Decompressor};

fn all_providers() -> Vec<Box<dyn CompressionProvider>> {
    vec![
        Box::new(StoreProvider),
        Box::new(DeflateProvider),
        Box::new(Bzip2Provider),
        Box::new(LzmaProvider),
        Box::new(ZstdProvider),
        Box::new(Lz4Provider),
    ]
}

#[test]
fn roundtrip_every_provider_every_level() {
    let inputs: Vec<Vec<u8>> = vec![
        Vec::new(),
        vec![0u8],
        b"abcabcabcabc".to_vec(),
        (0..5000u32).map(|i| (i * 7 % 251) as u8).collect(),
    ];
    for provider in all_providers() {
        for input in &inputs {
            for level in [0u8, 1, 5, 9, 10, 255] {
                let compressed = provider.compress(input, level).unwrap();
                assert_eq!(&provider.decompress(&compressed).unwrap(), input);
            }
        }
    }
}

#[test]
fn store_is_identity() {
    let data = b"anything at all".to_vec();
    assert_eq!(StoreProvider.compress(&data, 77).unwrap(), data);
    assert_eq!(StoreProvider.decompress(&data).unwrap(), data);
    let (out, n) = StoreProvider.decompress_counted(&data).unwrap();
    assert_eq!(out, data);
    assert_eq!(n, data.len() as u64);
}

#[test]
fn le32_header_roundtrip() {
    assert_eq!(le32_encode(0x1234_5678), vec![0x78, 0x56, 0x34, 0x12]);
    assert_eq!(le32_encode(0), vec![0, 0, 0, 0]);
    for n in [0u32, 1, 255, 256, 65535, 65536, 0xdead_beef, u32::MAX] {
        assert_eq!(le32_decode(&le32_encode(n)), n);
    }
}

#[test]
fn lz4_frame_layout() {
    let data = b"LZ4 frame layout check ".repeat(10);
    let framed = Lz4Provider.compress(&data, 3).unwrap();
    assert_eq!(&framed[..4], &(data.len() as u32).to_le_bytes()[..]);
    assert_eq!(&framed[4..], &lz4_flex::block::compress(&data)[..]);
}

#[test]
fn lz4_short_input_is_rejected() {
    let err = Lz4Provider.decompress(&[1, 2, 3]).unwrap_err();
    assert_eq!(err, "LZ4 decompression failed: input too short");
    let err = Lz4Provider.decompress(&[5, 0, 0, 0, 0xff]).unwrap_err();
    assert!(err.starts_with("LZ4 decompression failed: "));
}

#[test]
fn decoder_errors_carry_prefixes() {
    let junk = vec![0xffu8; 64];
    assert!(Bzip2Provider.decompress(&junk).unwrap_err().starts_with("BZIP2 decompression failed: "));
    assert!(LzmaProvider.decompress(&junk).unwrap_err().starts_with("XZ decompression failed: "));
    assert!(ZstdProvider.decompress(&junk).unwrap_err().starts_with("Zstd decompression failed: "));
    assert!(DeflateProvider.decompress(&junk).unwrap_err().starts_with("DEFLATE decompression failed: "));
}

#[test]
fn levels_are_mapped() {
    let data = b"level mapping data, level mapping data, level mapping data".repeat(20);
    // zstd: 0 -> 1, 1..=8 -> 2n, 9 and above -> 19
    assert_eq!(ZstdProvider.compress(&data, 0).unwrap(), zstd::encode_all(&data[..], 1).unwrap());
    assert_eq!(ZstdProvider.compress(&data, 5).unwrap(), zstd::encode_all(&data[..], 10).unwrap());
    assert_eq!(ZstdProvider.compress(&data, 8).unwrap(), zstd::encode_all(&data[..], 16).unwrap());
    assert_eq!(ZstdProvider.compress(&data, 9).unwrap(), zstd::encode_all(&data[..], 19).unwrap());
    assert_eq!(ZstdProvider.compress(&data, 12).unwrap(), zstd::encode_all(&data[..], 19).unwrap());
    // DEFLATE and LZMA: capped at 9
    assert_eq!(DeflateProvider.compress(&data, 200).unwrap(), DeflateProvider.compress(&data, 9).unwrap());
    assert_eq!(LzmaProvider.compress(&data, 200).unwrap(), LzmaProvider.compress(&data, 9).unwrap());
    // bzip2: 0 -> 1, capped at 9
    assert_eq!(Bzip2Provider.compress(&data, 0).unwrap(), Bzip2Provider.compress(&data, 1).unwrap());
    assert_eq!(Bzip2Provider.compress(&data, 99).unwrap(), Bzip2Provider.compress(&data, 9).unwrap());
}

#[test]
fn deflate_counts_stream_end() {
    let data = b"counted deflate stream ".repeat(30);
    let mut compressed = DeflateProvider.compress(&data, 6).unwrap();
    let stream_len = compressed.len() as u64;
    compressed.extend_from_slice(&[1, 2, 3, 4, 5, 6, 7, 8]);
    let (out, consumed) = DeflateProvider.decompress_counted(&compressed).unwrap();
    assert_eq!(out, data);
    assert_eq!(consumed, stream_len);
}

#[test]
fn compressor_invalid_level_message() {
    let c = Compressor::new(Algorithm::Store, 10);
    assert_eq!(c.compress(vec![1]).unwrap_err(), "Invalid compression level: 10. Must be 0-9.");
    let c = Compressor::new(Algorithm::Zstd, 255);
    assert_eq!(c.compress(vec![]).unwrap_err(), "Invalid compression level: 255. Must be 0-9.");
}

#[test]
fn openzl_objects_report_unavailability() {
    let c = Compressor::new(Algorithm::Openzl, 3);
    assert_eq!(c.compress(vec![1, 2]).unwrap_err(), "OpenZL is only available on WASM targets");
    let d = Decompressor::new(Algorithm::Openzl);
    assert_eq!(d.decompress(vec![1, 2]).unwrap_err(), "OpenZL is only available on WASM targets");
    match get_provider(Algorithm::Openzl) {
        Err(e) => assert_eq!(e, "OpenZL is only available on WASM targets"),
        Ok(_) => panic!("OpenZL must not be available"),
    }
}

#[test]
fn dispatcher_roundtrip_all_algorithms() {
    let data = b"dispatcher round trip ".repeat(40);
    for algorithm in MultiplexerImpl::supported_algorithms() {
        let c = Compressor::new(algorithm, 9);
        let d = Decompressor::new(algorithm);
        let compressed = c.compress(data.clone()).unwrap();
        assert_eq!(d.decompress(compressed).unwrap(), data);
    }
}

#[test]
fn descriptions_and_supported_list() {
    assert_eq!(
        MultiplexerImpl::supported_algorithms(),
        vec![
            Algorithm::Store,
            Algorithm::Deflate,
            Algorithm::Bzip2,
            Algorithm::Lzma,
            Algorithm::Zstd,
            Algorithm::Lz4
        ]
    );
    assert_eq!(
        algorithm_description(Algorithm::Store).unwrap(),
        "Store: No compression (pass-through)"
    );
    assert_eq!(
        MultiplexerImpl::algorithm_info(Algorithm::Openzl).unwrap(),
        "OpenZL: Meta's format-aware compression, excellent for structured data (JSON, XML, Protobuf)"
    );
    assert!(algorithm_description(Algorithm::Lz4).unwrap().starts_with("LZ4: "));
}

#[test]
fn decimal_rendering() {
    assert_eq!(decimal_u64(0), "0");
    assert_eq!(decimal_u64(1234567890), "1234567890");
    assert_eq!(decimal_u64(u64::MAX), u64::MAX.to_string());
    assert_eq!(decimal_i64(-42), "-42");
    assert_eq!(decimal_i64(i64::MIN), i64::MIN.to_string());
    assert_eq!(join2("ab", "cd"), "abcd");
    assert_eq!(join3("a", "b", "c"), "abc");
}

#[test]
fn openzl_values() {
    let ok = ZlReport { code: 0, value: 7 };
    let bad = ZlReport { code: 3, value: 0 };
    assert!(!ok.is_error());
    assert!(bad.is_error());
    assert_eq!(ok.get_value(), 7);
    assert_eq!(zl_compress_bound(10), 540);
    assert_eq!(zl_compress_bound(0), 520);
    assert_eq!(ZlCParam::FormatVersion.code(), 4);
    assert_eq!(ZlCParam::MinStreamSize.code(), 11);
    assert_eq!(OpenZlProvider::compression_level(200), 9);
    assert_eq!(OpenZlProvider::compression_level(4), 4);
    assert_eq!(OpenZlProvider::plan_compress(&[], 5), None);
    assert_eq!(OpenZlProvider::plan_compress(&[1, 2, 3], 12), Some((9, 526)));
    assert_eq!(
        OpenZlProvider::reported_size(bad, "boom").unwrap_err(),
        "Failed to get OpenZL decompressed size: boom"
    );
    assert_eq!(OpenZlProvider::reported_size(ok, "x").unwrap(), 7);
    assert_eq!(OpenZlProvider::finish(vec![9; 20], ok, "f: ", "e").unwrap(), vec![9; 7]);
    assert_eq!(OpenZlProvider::finish(vec![9; 3], ok, "f: ", "e").unwrap(), vec![9; 3]);
    assert_eq!(OpenZlProvider::finish(vec![9; 3], bad, "f: ", "e").unwrap_err(), "f: e");
    assert_eq!(OpenZlProvider::compression_answer(&[], None), Ok(Vec::new()));
    assert_eq!(
        OpenZlProvider::compression_answer(&[1, 2], None).unwrap_err(),
        "Failed to create OpenZL compression context"
    );
    // A buffer longer than the bound (2 * 2 + 520) is held to it.
    let ran = Some((vec![3; 600], ZlReport { code: 0, value: 590 }, String::new()));
    assert_eq!(OpenZlProvider::compression_answer(&[1, 2], ran).unwrap(), vec![3; 524]);
    let ran = Some((vec![3; 524], ZlReport { code: 0, value: 10 }, String::new()));
    assert_eq!(OpenZlProvider::compression_answer(&[1, 2], ran).unwrap(), vec![3; 10]);
    let ran = Some((vec![3; 524], bad, "boom".to_string()));
    assert_eq!(OpenZlProvider::compression_answer(&[1, 2], ran).unwrap_err(), "OpenZL compression failed: boom");
    assert_eq!(OpenZlProvider::decompression_answer(&[], bad, "x", None), Ok(Vec::new()));
    assert_eq!(
        OpenZlProvider::decompression_answer(&[1], bad, "boom", None).unwrap_err(),
        "Failed to get OpenZL decompressed size: boom"
    );
    assert_eq!(
        OpenZlProvider::decompression_answer(&[1], ok, "x", None).unwrap_err(),
        "Failed to create OpenZL decompression context"
    );
    let ran = Some((vec![4; 20], ZlReport { code: 0, value: 15 }, String::new()));
    assert_eq!(OpenZlProvider::decompression_answer(&[1], ok, "x", ran).unwrap(), vec![4; 7]);
    let ran = Some((vec![4; 20], bad, "bad frame".to_string()));
    assert_eq!(
        OpenZlProvider::decompression_answer(&[1], ok, "x", ran).unwrap_err(),
        "OpenZL decompression failed: bad frame"
    );
    assert_eq!(OpenZlProvider::answer_without_library(&[]), Some(Vec::new()));
    assert_eq!(OpenZlProvider::answer_without_library(&[1]), None);
    assert_eq!(OpenZlProvider::output_buffer(4), vec![0; 4]);
    assert_eq!(OpenZlProvider::decompression_buffer(ok, "x").unwrap(), vec![0; 7]);
    assert_eq!(
        OpenZlProvider::decompression_buffer(bad, "boom").unwrap_err(),
        "Failed to get OpenZL decompressed size: boom"
    );
}

#[test]
fn lzma_output_is_an_xz_container() {
    for input in [&b""[..], &b"xz container check"[..]] {
        let c = LzmaProvider.compress(input, 6).unwrap();
        assert_eq!(&c[..6], &[0xFD, b'7', b'z', b'X', b'Z', 0x00]);
    }
}
