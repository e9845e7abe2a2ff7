use mpv_stt_transport::auth::AuthToken;
use mpv_stt_transport::client::{
    attribute_time, build_request_headers, check_config, check_payload, check_upload_format,
    codec_failure, frames_of, is_success_status, next_generation, normalize_server_url,
    parse_u64_header, prepare_upload, request_id_from_nanos, server_error, settle_subtitles,
    transcribe_url, AfterFailure, ClientConfig, Install, Retry, TransferTiming, Upload,
    RETRY_DELAY_MS,
};
use mpv_stt_transport::error::MpvSttError;
use mpv_stt_transport::framing::CodecError;
use mpv_stt_transport::wav::{write_wav, WavProbe};

fn config() -> ClientConfig {
    ClientConfig {
        server_addr: String::from("127.0.0.1:9000"),
        timeout_ms: 30_000,
        max_retry: 3,
        use_opus: true,
        enable_encryption: false,
        encryption_key: String::new(),
        auth_secret: String::new(),
    }
}

fn stt_failed(r: MpvSttError) -> String {
    match r {
        MpvSttError::SttFailed(text) => text,
        other => panic!("{:?}", other),
    }
}

fn stereo_image() -> Vec<u8> {
    let spec = hound::WavSpec {
        channels: 2,
        sample_rate: 44100,
        bits_per_sample: 16,
        sample_format: hound::SampleFormat::Int,
    };
    let mut cursor = std::io::Cursor::new(Vec::new());
    {
        let mut writer = hound::WavWriter::new(&mut cursor, spec).unwrap();
        for s in [1i16, 2, 3, 4] {
            writer.write_sample(s).unwrap();
        }
        writer.finalize().unwrap();
    }
    cursor.into_inner()
}

#[test]
fn config_without_encryption_needs_no_key() {
    assert!(check_config(&config()).is_ok());
    let mut c = config();
    c.encryption_key = String::from("unused");
    assert!(check_config(&c).is_ok());
}

#[test]
fn config_with_encryption_needs_a_key() {
    let mut c = config();
    c.enable_encryption = true;
    assert_eq!(
        stt_failed(check_config(&c).unwrap_err()),
        "Encryption enabled but encryption_key is empty"
    );
    c.encryption_key = String::from("test");
    assert!(check_config(&c).is_ok());
}

#[test]
fn address_gets_a_scheme_unless_it_has_one() {
    assert_eq!(normalize_server_url("127.0.0.1:9000"), "http://127.0.0.1:9000");
    assert_eq!(normalize_server_url("http://host"), "http://host");
    assert_eq!(normalize_server_url("https://host:8443/x"), "https://host:8443/x");
    assert_eq!(normalize_server_url(""), "http://");
    assert_eq!(normalize_server_url("http:/host"), "http://http:/host");
    assert_eq!(normalize_server_url("HTTP://host"), "http://HTTP://host");
    assert_eq!(normalize_server_url("ftp://host"), "http://ftp://host");
    assert_eq!(normalize_server_url("h\u{00f6}st"), "http://h\u{00f6}st");
}

#[test]
fn requests_go_to_the_transcribe_path() {
    assert_eq!(transcribe_url("http://host:9000"), "http://host:9000/transcribe");
}

#[test]
fn request_id_is_the_low_half_of_the_nanoseconds() {
    assert_eq!(request_id_from_nanos(0), 0);
    assert_eq!(request_id_from_nanos(1_700_000_000_123_456_789), 1_700_000_000_123_456_789);
    assert_eq!(request_id_from_nanos(u64::MAX as u128), u64::MAX);
    assert_eq!(request_id_from_nanos(u64::MAX as u128 + 1), 0);
    assert_eq!(request_id_from_nanos(u64::MAX as u128 + 43), 42);
    assert_eq!(request_id_from_nanos(u128::MAX), u128::MAX as u64);
}

#[test]
fn every_cancellation_moves_the_generation() {
    assert_eq!(next_generation(0), 1);
    assert_eq!(next_generation(41), 42);
    assert_eq!(next_generation(u64::MAX), 0);
    for g in [0u64, 1, u64::MAX - 1, u64::MAX] {
        assert_ne!(next_generation(g), g);
    }
}

#[test]
fn upload_format_is_checked() {
    let good = WavProbe {
        channels: 1,
        sample_rate: 16000,
        bits_per_sample: 16,
        sample_count: 0,
        first_sample: None,
    };
    assert!(check_upload_format(Ok(good)).is_ok());
    let stereo = WavProbe { channels: 2, sample_rate: 44100, ..good };
    assert_eq!(
        stt_failed(check_upload_format(Ok(stereo)).unwrap_err()),
        "Unsupported WAV format: 2ch 44100Hz 16-bit"
    );
    let wide = WavProbe { bits_per_sample: 24, ..good };
    assert_eq!(
        stt_failed(check_upload_format(Ok(wide)).unwrap_err()),
        "Unsupported WAV format: 1ch 16000Hz 24-bit"
    );
    assert_eq!(
        stt_failed(check_upload_format(Err(String::from("no RIFF tag found"))).unwrap_err()),
        "Failed to read WAV: no RIFF tag found"
    );
}

#[test]
fn samples_become_whole_frames() {
    let frames = frames_of(Ok(vec![5; 321])).unwrap();
    assert_eq!(frames.len(), 640);
    assert!(frames[..321].iter().all(|s| *s == 5));
    assert!(frames[321..].iter().all(|s| *s == 0));
    assert_eq!(frames_of(Ok(vec![5; 640])).unwrap(), vec![5; 640]);
}

#[test]
fn no_samples_and_unreadable_samples_fail() {
    assert_eq!(stt_failed(frames_of(Ok(Vec::new())).unwrap_err()), "Audio data is empty");
    assert_eq!(
        stt_failed(frames_of(Err(String::from("Failed to read enough bytes."))).unwrap_err()),
        "Read WAV samples failed: Failed to read enough bytes."
    );
}

#[test]
fn without_opus_the_image_is_uploaded_as_it_is() {
    let image = write_wav(&[1, 2, 3]);
    match prepare_upload(image.clone(), false).unwrap() {
        Upload::Wav(bytes) => assert_eq!(bytes, image),
        other => panic!("{:?}", other),
    }
    // Even one without samples: the server will turn it down.
    let empty = write_wav(&[]);
    assert!(matches!(prepare_upload(empty, false), Ok(Upload::Wav(_))));
}

#[test]
fn with_opus_the_samples_are_uploaded_in_frames() {
    let samples: Vec<i16> = (0..500).map(|i| i as i16 - 250).collect();
    match prepare_upload(write_wav(&samples), true).unwrap() {
        Upload::Frames(frames) => {
            assert_eq!(frames.len(), 640);
            assert_eq!(&frames[..500], &samples[..]);
            assert!(frames[500..].iter().all(|s| *s == 0));
        }
        other => panic!("{:?}", other),
    }
}

#[test]
fn one_second_fills_fifty_frames() {
    match prepare_upload(write_wav(&vec![0; 16000]), true).unwrap() {
        Upload::Frames(frames) => assert_eq!(frames.len(), 50 * 320),
        other => panic!("{:?}", other),
    }
}

#[test]
fn upload_of_a_bad_image_fails() {
    for use_opus in [false, true] {
        assert_eq!(
            stt_failed(prepare_upload(stereo_image(), use_opus).unwrap_err()),
            "Unsupported WAV format: 2ch 44100Hz 16-bit"
        );
        let text = stt_failed(prepare_upload(b"junk".to_vec(), use_opus).unwrap_err());
        assert!(text.starts_with("Failed to read WAV: "), "{}", text);
    }
    assert_eq!(
        stt_failed(prepare_upload(write_wav(&[]), true).unwrap_err()),
        "Audio data is empty"
    );
    let mut cut = write_wav(&[1, 2, 3]);
    cut.truncate(cut.len() - 1);
    let text = stt_failed(prepare_upload(cut, true).unwrap_err());
    assert!(text.starts_with("Read WAV samples failed: "), "{}", text);
}

#[test]
fn empty_payload_is_turned_down() {
    assert!(check_payload(&[0]).is_ok());
    assert_eq!(stt_failed(check_payload(&[]).unwrap_err()), "Audio data is empty");
}

#[test]
fn codec_failures_are_transport_failures() {
    assert_eq!(
        stt_failed(codec_failure(&CodecError::Encode(String::from("buffer too small")))),
        "Opus encode failed: opus_encode failed: buffer too small"
    );
    assert_eq!(
        stt_failed(codec_failure(&CodecError::EncoderInit(String::from("invalid argument")))),
        "Opus encoder init failed: opus_encoder_create failed: invalid argument"
    );
}

#[test]
fn request_headers_are_written_out() {
    let token = AuthToken::from_bytes([0xab; 32]);
    let h = build_request_headers(42, 1000, &token, false, false);
    assert_eq!(h.request_id.as_deref(), Some("42"));
    assert_eq!(h.duration_ms.as_deref(), Some("1000"));
    assert_eq!(h.auth_token, Some("ab".repeat(32)));
    assert_eq!(h.compression.as_deref(), Some("pcm"));
    assert_eq!(h.encrypted, None);
    let h = build_request_headers(u64::MAX, 0, &token, true, true);
    assert_eq!(h.request_id.as_deref(), Some("18446744073709551615"));
    assert_eq!(h.duration_ms.as_deref(), Some("0"));
    assert_eq!(h.compression.as_deref(), Some("opus"));
    assert_eq!(h.encrypted.as_deref(), Some("1"));
}

#[test]
fn retry_pauses_between_attempts_and_stops_after_the_last() {
    assert_eq!(RETRY_DELAY_MS, 500);
    let mut retry = Retry::new(3, 7);
    let fail = || MpvSttError::SttFailed(String::from("HTTP send failed: refused"));
    assert!(matches!(retry.failed(fail()), AfterFailure::RetryAfter(500)));
    assert!(matches!(retry.failed(fail()), AfterFailure::RetryAfter(500)));
    match retry.failed(MpvSttError::SttFailed(String::from("last"))) {
        AfterFailure::GiveUp(MpvSttError::SttFailed(text)) => assert_eq!(text, "last"),
        other => panic!("{:?}", other),
    }
}

#[test]
fn a_single_attempt_is_never_repeated() {
    let mut retry = Retry::new(1, 0);
    match retry.failed(MpvSttError::SttFailed(String::from("only"))) {
        AfterFailure::GiveUp(MpvSttError::SttFailed(text)) => assert_eq!(text, "only"),
        other => panic!("{:?}", other),
    }
}

#[test]
fn errors_that_will_not_go_away_end_the_run() {
    let mut retry = Retry::new(5, 0);
    assert!(matches!(
        retry.failed(MpvSttError::CryptoError(String::from("bad key"))),
        AfterFailure::GiveUp(MpvSttError::CryptoError(_))
    ));
    let mut retry = Retry::new(5, 0);
    assert!(matches!(
        retry.failed(MpvSttError::SttCancelled),
        AfterFailure::GiveUp(MpvSttError::SttCancelled)
    ));
}

#[test]
fn checkpoint_sees_a_cancellation() {
    let retry = Retry::new(3, 7);
    assert!(retry.checkpoint(7).is_ok());
    assert!(matches!(retry.checkpoint(8), Err(MpvSttError::SttCancelled)));
    assert!(matches!(retry.checkpoint(6), Err(MpvSttError::SttCancelled)));
    assert!(matches!(retry.checkpoint(next_generation(7)), Err(MpvSttError::SttCancelled)));
}

#[test]
fn success_is_two_hundred_to_two_ninety_nine() {
    for (status, ok) in [(199u16, false), (200, true), (204, true), (299, true), (300, false), (400, false), (401, false), (413, false), (500, false), (0, false), (u16::MAX, false)] {
        assert_eq!(is_success_status(status), ok, "{}", status);
    }
}

#[test]
fn server_errors_quote_status_and_body() {
    assert_eq!(
        stt_failed(server_error("401 Unauthorized", Some("unauthorized"))),
        "Server error (401 Unauthorized): unauthorized"
    );
    assert_eq!(
        stt_failed(server_error("500 Internal Server Error", None)),
        "Server error (500 Internal Server Error): unknown error"
    );
    assert_eq!(stt_failed(server_error("400 Bad Request", Some(""))), "Server error (400 Bad Request): ");
}

#[test]
fn metric_headers_default_to_zero() {
    assert_eq!(parse_u64_header(Some("45")), 45);
    assert_eq!(parse_u64_header(Some("18446744073709551615")), u64::MAX);
    assert_eq!(parse_u64_header(None), 0);
    assert_eq!(parse_u64_header(Some("")), 0);
    assert_eq!(parse_u64_header(Some("fast")), 0);
    assert_eq!(parse_u64_header(Some("-3")), 0);
    assert_eq!(parse_u64_header(Some("18446744073709551616")), 0);
}

#[test]
fn time_is_split_between_network_and_server() {
    assert_eq!(
        attribute_time(1000, 100, 700, 600),
        TransferTiming {
            wall_ms: 1000,
            network_ms: 200,
            server_queue_ms: 100,
            server_worker_ms: 700,
            server_infer_ms: 600,
            server_non_infer_ms: 100,
        }
    );
}

#[test]
fn time_split_saturates() {
    let t = attribute_time(500, 400, 300, 900);
    assert_eq!(t.network_ms, 0);
    assert_eq!(t.server_non_infer_ms, 0);
    let t = attribute_time(u64::MAX, u64::MAX, 1, 0);
    assert_eq!(t.network_ms, 0);
    assert_eq!(t.server_non_infer_ms, 1);
    let t = attribute_time(u64::MAX, u64::MAX - 5, 2, 2);
    assert_eq!(t.network_ms, 3);
    let t = attribute_time(10, 0, 0, 0);
    assert_eq!(t.network_ms, 10);
}

#[test]
fn blank_subtitles_give_an_empty_file() {
    assert!(matches!(settle_subtitles(3, 3, Vec::new()), Ok(Install::Empty)));
    assert!(matches!(settle_subtitles(3, 3, b" \r\n\t \n".to_vec()), Ok(Install::Empty)));
}

#[test]
fn other_subtitles_are_parsed() {
    let srt = b"1\n00:00:00,000 --> 00:00:01,000\nhello\n\n".to_vec();
    match settle_subtitles(3, 3, srt.clone()) {
        Ok(Install::Parse(text)) => assert_eq!(text, srt),
        other => panic!("{:?}", other),
    }
}

#[test]
fn a_cancelled_run_installs_nothing() {
    let srt = b"1\n00:00:00,000 --> 00:00:01,000\nhello\n\n".to_vec();
    assert!(matches!(settle_subtitles(3, 4, srt), Err(MpvSttError::SttCancelled)));
    assert!(matches!(settle_subtitles(3, 4, Vec::new()), Err(MpvSttError::SttCancelled)));
}
