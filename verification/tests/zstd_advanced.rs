use compression_multiplexer::zstd_advanced::{ZstdAction, ZstdCall, ZstdEvent, ZstdRun};
use compression_multiplexer::zstd_extras::{decompress_capacity, ZstdDict, ZstdParam};
use compression_multiplexer::MultiplexerImpl;

fn samples() -> Vec<Vec<u8>> {
    (0..200)
        .map(|i| format!("{{\"id\":{},\"name\":\"sample-{}\",\"tags\":[\"a\",\"b\"]}}", i, i).into_bytes())
        .collect()
}

fn trained() -> ZstdDict {
    ZstdDict::new(MultiplexerImpl::train_dict(samples(), 4096).unwrap())
}

#[test]
fn dictionary_roundtrip_through_library() {
    let dict = trained();
    let payload = br#"{"id":1234,"name":"sample-1234","tags":["a","b"]}"#.to_vec();
    let compressed = MultiplexerImpl::compress_with_dict(payload.clone(), &dict, 3).unwrap();
    assert_eq!(decompress_capacity(&compressed), payload.len());
    assert_eq!(MultiplexerImpl::decompress_with_dict(compressed, &dict).unwrap(), payload);
    let empty = MultiplexerImpl::compress_with_dict(Vec::new(), &dict, 3).unwrap();
    assert_eq!(decompress_capacity(&empty), 0);
    assert_eq!(MultiplexerImpl::decompress_with_dict(empty, &dict).unwrap(), Vec::<u8>::new());
}

#[test]
fn dictionary_basics() {
    let raw = ZstdDict::new(b"just some raw content".to_vec());
    assert_eq!(raw.id(), 0);
    assert_eq!(raw.as_bytes(), b"just some raw content".to_vec());
    assert!(trained().id() != 0);
    // The magic number 0xEC30A437 and then the ID, both little-endian.
    assert_eq!(ZstdDict::new(vec![0x37, 0xA4, 0x30, 0xEC, 42, 0, 0, 0, 1, 2]).id(), 42);
    assert_eq!(ZstdDict::new(vec![0x37, 0xA4, 0x30, 0xEC, 42, 0, 0]).id(), 0);
    assert_eq!(ZstdDict::new(vec![0x38, 0xA4, 0x30, 0xEC, 42, 0, 0, 0]).id(), 0);
}

#[test]
fn train_dict_without_samples() {
    assert_eq!(
        MultiplexerImpl::train_dict(Vec::new(), 1024).unwrap_err(),
        "train-dict: no samples provided"
    );
}

#[test]
fn capacity_from_frame_header() {
    let data = vec![7u8; 1000];
    let sized = zstd::bulk::compress(&data, 3).unwrap();
    assert_eq!(decompress_capacity(&sized), 1000);
    let unsized_frame = zstd::encode_all(&data[..], 3).unwrap();
    assert_eq!(decompress_capacity(&unsized_frame), 64 * 1024);
    assert_eq!(decompress_capacity(&[1, 2, 3, 4, 5, 6, 7, 8]), 4096);
}

#[test]
fn frame_size_queries() {
    let data = b"frame size query ".repeat(20);
    let frame = zstd::bulk::compress(&data, 3).unwrap();
    let mut with_tail = frame.clone();
    with_tail.extend_from_slice(b"trailing");
    assert_eq!(MultiplexerImpl::get_frame_size(with_tail).unwrap(), frame.len() as u64);
    assert!(MultiplexerImpl::get_frame_size(frame[..frame.len() - 1].to_vec()).is_err());
    let err = MultiplexerImpl::get_frame_size(vec![0, 1, 2, 3]).unwrap_err();
    assert!(err.starts_with("find_frame_compressed_size error code: "));
}

/// Plays the embedding for a compression run on a safe zstd context: the
/// level and the checksum flag are set through the typed parameters, and the
/// compression writes into the buffer the run asks for.
fn drive_compression(mut run: ZstdRun, input: &[u8]) -> Result<Vec<u8>, String> {
    let mut ctx = zstd::zstd_safe::CCtx::create();
    let mut event = ZstdEvent::Begin;
    loop {
        match run.step(event) {
            ZstdAction::Call(ZstdCall::SetParameter(p)) => {
                assert_eq!((p.id, p.value), (201, 1));
                ctx.set_parameter(zstd::zstd_safe::CParameter::ChecksumFlag(true)).unwrap();
                event = ZstdEvent::Accepted;
            }
            ZstdAction::Call(ZstdCall::SetLevel(level)) => {
                ctx.set_parameter(zstd::zstd_safe::CParameter::CompressionLevel(level)).unwrap();
                event = ZstdEvent::Accepted;
            }
            ZstdAction::Call(ZstdCall::Compress(capacity)) => {
                let mut dst = ZstdRun::output_buffer(capacity);
                let n = ctx.compress2(&mut dst[..], input).unwrap();
                event = ZstdEvent::Wrote(dst, n);
            }
            ZstdAction::Call(other) => panic!("unexpected call {:?}", other),
            ZstdAction::Fail(e) => return Err(e),
            ZstdAction::Finish(v) => return Ok(v),
        }
    }
}

#[test]
fn advanced_compression_run_roundtrip() {
    let data = b"advanced parameters round trip ".repeat(50);
    let run = ZstdRun::compress_advanced(&data, 3, &[ZstdParam { id: 201, value: 1 }]);
    let compressed = drive_compression(run, &data).unwrap();
    assert!(compressed.len() < data.len());
    assert_eq!(zstd::decode_all(&compressed[..]).unwrap(), data);
    assert_eq!(decompress_capacity(&compressed), data.len());
}

#[test]
fn advanced_run_passes_every_pair_in_order() {
    let params = [
        ZstdParam { id: 107, value: 0 },
        ZstdParam { id: 160, value: 2 },
        ZstdParam { id: 1000, value: 1 },
        ZstdParam { id: 100, value: 7 },
    ];
    let mut run = ZstdRun::compress_advanced(&[1, 2, 3], 3, &params);
    let mut event = ZstdEvent::Begin;
    let mut calls = Vec::new();
    loop {
        match run.step(event) {
            ZstdAction::Call(call) => {
                calls.push(call);
                event = match call {
                    ZstdCall::Compress(_) => ZstdEvent::Wrote(vec![9, 8, 7], 2),
                    _ => ZstdEvent::Accepted,
                };
            }
            ZstdAction::Fail(e) => panic!("unexpected failure {}", e),
            ZstdAction::Finish(v) => {
                assert_eq!(v, vec![9, 8]);
                break;
            }
        }
    }
    assert_eq!(calls.len(), 6);
    for (i, p) in params.iter().enumerate() {
        assert_eq!(calls[i], ZstdCall::SetParameter(*p));
    }
    assert_eq!(calls[4], ZstdCall::SetLevel(3));
    assert_eq!(calls[5], ZstdCall::Compress(zstd::zstd_safe::compress_bound(3)));
}

#[test]
fn advanced_run_names_the_refused_pair() {
    // libzstd's codes for an unsupported parameter and a value out of bounds.
    let unsupported = 0usize.wrapping_sub(40);
    let out_of_bound = 0usize.wrapping_sub(42);
    let params = [ZstdParam { id: 107, value: 0 }, ZstdParam { id: 101, value: 5 }];
    let mut run = ZstdRun::compress_advanced(&[1, 2, 3], 3, &params);
    assert!(matches!(run.step(ZstdEvent::Begin), ZstdAction::Call(ZstdCall::SetParameter(ZstdParam { id: 107, value: 0 }))));
    assert!(matches!(run.step(ZstdEvent::Accepted), ZstdAction::Call(ZstdCall::SetParameter(ZstdParam { id: 101, value: 5 }))));
    match run.step(ZstdEvent::Refused(out_of_bound)) {
        ZstdAction::Fail(e) => {
            assert_eq!(e, "compress-advanced: setParameter(id=101, value=5) failed: Parameter is out of bound")
        }
        _ => panic!("expected a failure"),
    }
    let mut run = ZstdRun::decompress_advanced(&[1, 2, 3], &[ZstdParam { id: 5, value: 1 }]);
    assert!(matches!(run.step(ZstdEvent::Begin), ZstdAction::Call(ZstdCall::SetParameter(ZstdParam { id: 5, value: 1 }))));
    match run.step(ZstdEvent::Refused(unsupported)) {
        ZstdAction::Fail(e) => assert_eq!(e, "decompress-advanced: setParameter(id=5, value=1) failed: Unsupported parameter"),
        _ => panic!("expected a failure"),
    }
}

#[test]
fn advanced_run_level_dictionary_and_call_failures() {
    let code = 0usize.wrapping_sub(1);
    let name = zstd::zstd_safe::get_error_name(code);
    let mut run = ZstdRun::compress_advanced(&[1], -7, &[]);
    assert!(matches!(run.step(ZstdEvent::Begin), ZstdAction::Call(ZstdCall::SetLevel(-7))));
    match run.step(ZstdEvent::Refused(code)) {
        ZstdAction::Fail(e) => assert_eq!(e, format!("compress-advanced: setParameter(compressionLevel=-7) failed: {}", name)),
        _ => panic!("expected a failure"),
    }
    let mut run = ZstdRun::compress_advanced_with_dict(&[1], 3, &[]);
    assert!(matches!(run.step(ZstdEvent::Begin), ZstdAction::Call(ZstdCall::SetLevel(3))));
    assert!(matches!(run.step(ZstdEvent::Accepted), ZstdAction::Call(ZstdCall::LoadDictionary)));
    match run.step(ZstdEvent::Refused(code)) {
        ZstdAction::Fail(e) => assert_eq!(e, format!("compress-advanced-with-dict: loadDictionary failed: {}", name)),
        _ => panic!("expected a failure"),
    }
    assert_eq!(run.no_context_text(), "ZSTD_createCCtx returned null");
    let mut run = ZstdRun::decompress_advanced(&[9; 16], &[]);
    assert!(matches!(run.step(ZstdEvent::Begin), ZstdAction::Call(ZstdCall::Decompress(4096))));
    match run.step(ZstdEvent::Refused(code)) {
        ZstdAction::Fail(e) => assert_eq!(e, format!("decompress-advanced: ZSTD_decompressDCtx failed: {}", name)),
        _ => panic!("expected a failure"),
    }
    assert_eq!(run.no_context_text(), "decompress-advanced: ZSTD_createDCtx returned null");
    let run = ZstdRun::decompress_advanced_with_dict(&[1], &[]);
    assert_eq!(run.no_context_text(), "ZSTD_createDCtx returned null");
    let run = ZstdRun::compress_advanced(&[1], 3, &[]);
    assert_eq!(run.no_context_text(), "compress-advanced: ZSTD_createCCtx returned null");
}

#[test]
fn advanced_decompression_output_within_capacity() {
    let data = vec![7u8; 1000];
    let frame = zstd::bulk::compress(&data, 3).unwrap();
    let mut run = ZstdRun::decompress_advanced_with_dict(&frame, &[ZstdParam { id: 100, value: 27 }]);
    assert!(matches!(run.step(ZstdEvent::Begin), ZstdAction::Call(ZstdCall::SetParameter(_))));
    assert!(matches!(run.step(ZstdEvent::Accepted), ZstdAction::Call(ZstdCall::LoadDictionary)));
    assert!(matches!(run.step(ZstdEvent::Accepted), ZstdAction::Call(ZstdCall::Decompress(1000))));
    match run.step(ZstdEvent::Wrote(vec![1; 2000], 1500)) {
        ZstdAction::Finish(v) => assert_eq!(v, vec![1; 1000]),
        _ => panic!("expected the output"),
    }
    assert_eq!(ZstdRun::output_buffer(3), vec![0, 0, 0]);
}

#[test]
fn finalize_inputs_checks_and_layout() {
    assert_eq!(
        MultiplexerImpl::finalize_dict_inputs(&vec![1, 2, 3], &Vec::new(), 1024).unwrap_err(),
        "finalize-dict: no samples provided"
    );
    assert_eq!(
        MultiplexerImpl::finalize_dict_inputs(&vec![1, 2, 3], &vec![vec![1]], 1).unwrap_err(),
        "finalize-dict: dict_size (1) must be >= dict_content size (3)"
    );
    let (buf, sizes) =
        MultiplexerImpl::finalize_dict_inputs(&vec![1], &vec![vec![1, 2], vec![], vec![3]], 300).unwrap();
    assert_eq!(buf, vec![1, 2, 3]);
    assert_eq!(sizes, vec![2, 0, 1]);
}

#[test]
fn finalize_settings_and_buffer() {
    let settings = MultiplexerImpl::finalize_settings(7);
    assert_eq!((settings.compression_level, settings.notification_level, settings.dict_id), (7, 0, 0));
    assert_eq!(MultiplexerImpl::finalize_buffer(5), vec![0; 5]);
    assert!(MultiplexerImpl::finalize_buffer(0).is_empty());
}

#[test]
fn finalize_result_handling() {
    assert_eq!(MultiplexerImpl::finalize_dict_result(vec![5; 10], 4, false).unwrap(), vec![5; 4]);
    let err = MultiplexerImpl::finalize_dict_result(vec![5; 10], usize::MAX, true).unwrap_err();
    assert!(err.starts_with("finalize-dict failed: "));
}
