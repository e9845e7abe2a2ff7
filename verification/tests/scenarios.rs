use mpv_stt_transport::auth::AuthToken;
use mpv_stt_transport::client::{
    build_request_headers, is_success_status, next_generation, parse_u64_header, prepare_upload,
    settle_subtitles, AfterFailure, Install, Retry, Upload,
};
use mpv_stt_transport::error::MpvSttError;
use mpv_stt_transport::framing::{
    frame_at, frame_count, CodecError, RecordStep, StreamReader, StreamWriter,
};
use mpv_stt_transport::protocol::{Compression, HttpReply, JobResult, RequestHeaders};
use mpv_stt_transport::server::{
    accept_audio, admit_request, choose_decoding, match_result, respond, settle_opus,
    AccessRules, Awaited, Decoding, HttpSuccess,
};
use mpv_stt_transport::wav::{validate_wav, write_wav};
use mpv_stt_transport::worker::{
    conclude, effective_duration_ms, elapsed, on_dequeue, CancelSet, Dequeued,
};

/// Stands in for the codec: a packet says how many samples its frame held and
/// what the first one was.
fn pretend_encode(frame: &[i16]) -> Vec<u8> {
    let mut packet = (frame.len() as u16).to_le_bytes().to_vec();
    packet.extend_from_slice(&frame[0].to_le_bytes());
    packet
}

fn pretend_decode(packet: &[u8]) -> Result<Vec<i16>, String> {
    if packet.len() != 4 {
        return Err(String::from("corrupted stream"));
    }
    let n = u16::from_le_bytes([packet[0], packet[1]]) as usize;
    let first = i16::from_le_bytes([packet[2], packet[3]]);
    Ok(vec![first; n])
}

fn encode_stream(frames: &[i16]) -> Vec<u8> {
    let mut writer = StreamWriter::new();
    for k in 0..frame_count(frames.len()) {
        writer.push(&pretend_encode(frame_at(frames, k)));
    }
    writer.finish()
}

fn decode_stream(body: &[u8]) -> Result<Vec<i16>, CodecError> {
    let mut reader = StreamReader::new(body.to_vec());
    loop {
        match reader.next() {
            RecordStep::End => return Ok(reader.into_pcm()),
            RecordStep::Invalid => return Err(CodecError::InvalidFraming),
            RecordStep::Packet { start, end } => {
                let pcm = pretend_decode(&reader.bytes()[start..end]).map_err(CodecError::Decode)?;
                reader.accept(&pcm);
            }
        }
    }
}

/// Stands in for the cipher.
fn pretend_wrap(key: u8, plain: &[u8]) -> Vec<u8> {
    let mut out = vec![key];
    out.extend(plain.iter().map(|b| b ^ key));
    out
}

fn pretend_unwrap(key: u8, wrapped: &[u8]) -> Result<Vec<u8>, String> {
    match wrapped.split_first() {
        Some((k, rest)) if *k == key => Ok(rest.iter().map(|b| b ^ key).collect()),
        _ => Err(String::from("authentication failed")),
    }
}

/// One request through the server's steps, with a runner that returns `srt`.
fn serve(
    rules: &AccessRules,
    key: u8,
    headers: &RequestHeaders,
    body: &[u8],
    cancelled: &CancelSet,
    srt: &[u8],
    runs: &mut u32,
) -> Result<HttpSuccess, HttpReply> {
    let admitted = admit_request(rules, headers, body.len())?;
    let payload = if admitted.encrypted {
        pretend_unwrap(key, body).map_err(|e| mpv_stt_transport::server::decrypt_rejected(&e))?
    } else {
        body.to_vec()
    };
    let audio = match choose_decoding(&admitted)? {
        Decoding::AsWav => payload,
        Decoding::ThroughOpus => {
            let decoded = decode_stream(&payload);
            settle_opus(payload, decoded)?
        }
    };
    let job = accept_audio(&admitted, audio, 1_000)?;
    assert!(validate_wav(&job.audio_data).is_ok());
    let result = match on_dequeue(&job, cancelled, 1_010) {
        Dequeued::Discard => None,
        Dequeued::Process { queue_wait_ms } => {
            *runs += 1;
            let _ = effective_duration_ms(&job);
            let inference_ms = elapsed(1_012, 1_050);
            Some(conclude(
                job.request_id,
                Ok((srt.to_vec(), inference_ms)),
                queue_wait_ms,
                1_010,
                1_055,
            ))
        }
    };
    match match_result(admitted.request_id, result) {
        Awaited::Delivered { srt_data, metrics } => {
            let out = if admitted.encrypted { pretend_wrap(key, &srt_data) } else { srt_data };
            Ok(respond(out, &metrics, body.len()))
        }
        Awaited::Failed(e) => Err(e),
        Awaited::Unrelated => panic!("a single request"),
    }
}

fn no_auth() -> AccessRules {
    AccessRules { expected_token: None, has_key: false }
}

fn shared_token() -> AuthToken {
    let mut bytes = [0u8; 32];
    for (i, b) in bytes.iter_mut().enumerate() {
        *b = 0x5a ^ (i as u8).wrapping_mul(31);
    }
    AuthToken::from_bytes(bytes)
}

const SRT: &[u8] = b"1\n00:00:00,000 --> 00:00:01,000\nhello\n\n";

#[test]
fn happy_path_pcm_without_crypto() {
    let image = write_wav(&vec![0i16; 16000]);
    let body = match prepare_upload(image, false).unwrap() {
        Upload::Wav(bytes) => bytes,
        other => panic!("{:?}", other),
    };
    let headers = build_request_headers(42, 1000, &shared_token(), false, false);
    assert_eq!(headers.request_id.as_deref(), Some("42"));
    assert_eq!(headers.duration_ms.as_deref(), Some("1000"));
    assert_eq!(headers.compression.as_deref(), Some("pcm"));
    let mut runs = 0;
    let resp = serve(&no_auth(), 0, &headers, &body, &CancelSet::new(), SRT, &mut runs).unwrap();
    assert_eq!(runs, 1);
    assert_eq!(resp.status, 200);
    assert!(is_success_status(resp.status));
    assert_eq!(resp.body, SRT);
    assert_eq!(parse_u64_header(Some(&resp.headers.queue_ms)), 10);
    assert_eq!(parse_u64_header(Some(&resp.headers.infer_ms)), 38);
    assert_eq!(parse_u64_header(Some(&resp.headers.worker_ms)), 45);
    assert!(parse_u64_header(Some(&resp.headers.worker_ms)) > 0);
    assert_eq!(parse_u64_header(Some(&resp.headers.bytes_in)), 32044);
    assert_eq!(parse_u64_header(Some(&resp.headers.bytes_out)), SRT.len() as u64);
    assert!(matches!(settle_subtitles(0, 0, resp.body), Ok(Install::Parse(_))));
}

#[test]
fn happy_path_pcm_with_empty_subtitles() {
    let body = write_wav(&vec![0i16; 16000]);
    let headers = build_request_headers(42, 1000, &shared_token(), false, false);
    let mut runs = 0;
    let resp = serve(&no_auth(), 0, &headers, &body, &CancelSet::new(), b"", &mut runs).unwrap();
    assert_eq!(resp.status, 200);
    assert!(resp.body.is_empty());
    assert!(matches!(settle_subtitles(0, 0, resp.body), Ok(Install::Empty)));
}

#[test]
fn happy_path_opus_encryption_and_auth() {
    let key = 0x6b;
    let frames = match prepare_upload(write_wav(&vec![0i16; 16000]), true).unwrap() {
        Upload::Frames(frames) => frames,
        other => panic!("{:?}", other),
    };
    assert_eq!(frame_count(frames.len()), 50);
    let stream = encode_stream(&frames);
    assert_eq!(stream.len(), 50 * (4 + 4));
    assert_eq!(&stream[..4], &[4, 0, 0, 0]);
    let body = pretend_wrap(key, &stream);
    let headers = build_request_headers(43, 1000, &shared_token(), true, true);
    assert_eq!(headers.encrypted.as_deref(), Some("1"));
    assert_eq!(headers.compression.as_deref(), Some("opus"));
    assert_eq!(headers.auth_token, Some(hex::encode(shared_token().as_bytes())));
    let rules = AccessRules { expected_token: Some(shared_token()), has_key: true };
    let mut runs = 0;
    let resp = serve(&rules, key, &headers, &body, &CancelSet::new(), SRT, &mut runs).unwrap();
    assert_eq!(runs, 1);
    assert_eq!(resp.status, 200);
    assert_eq!(pretend_unwrap(key, &resp.body).unwrap(), SRT);
    assert_eq!(resp.headers.bytes_in, body.len().to_string());
    assert_eq!(resp.headers.bytes_out, (SRT.len() + 1).to_string());
}

#[test]
fn decoded_pcm_holds_a_frame_for_each_record() {
    let frames = match prepare_upload(write_wav(&vec![7i16; 1000]), true).unwrap() {
        Upload::Frames(frames) => frames,
        other => panic!("{:?}", other),
    };
    let stream = encode_stream(&frames);
    let pcm = decode_stream(&stream).unwrap();
    assert_eq!(pcm.len(), 4 * 320);
    let image = settle_opus(stream, Ok(pcm)).unwrap();
    let reader = hound::WavReader::new(std::io::Cursor::new(image)).unwrap();
    assert_eq!(reader.len(), 4 * 320);
}

#[test]
fn wrong_auth_is_401_and_nothing_runs() {
    let key = 0x6b;
    let stream = encode_stream(&vec![0i16; 16000]);
    let body = pretend_wrap(key, &stream);
    let zeros = AuthToken::from_bytes([0u8; 32]);
    let headers = build_request_headers(44, 1000, &zeros, true, true);
    assert_eq!(headers.auth_token, Some("0".repeat(64)));
    let rules = AccessRules { expected_token: Some(shared_token()), has_key: true };
    let mut runs = 0;
    let e = serve(&rules, key, &headers, &body, &CancelSet::new(), SRT, &mut runs).unwrap_err();
    assert_eq!((e.status, e.body.as_str()), (401, "unauthorized"));
    assert_eq!(runs, 0);
}

#[test]
fn bad_wav_is_400() {
    let spec = hound::WavSpec {
        channels: 2,
        sample_rate: 44100,
        bits_per_sample: 16,
        sample_format: hound::SampleFormat::Int,
    };
    let mut cursor = std::io::Cursor::new(Vec::new());
    {
        let mut writer = hound::WavWriter::new(&mut cursor, spec).unwrap();
        for _ in 0..88200 {
            writer.write_sample(0i16).unwrap();
        }
        writer.finalize().unwrap();
    }
    let body = cursor.into_inner();
    let headers = build_request_headers(45, 1000, &shared_token(), false, false);
    let mut runs = 0;
    let e = serve(&no_auth(), 0, &headers, &body, &CancelSet::new(), SRT, &mut runs).unwrap_err();
    assert_eq!(e.status, 400);
    assert!(e.body.contains("unsupported wav format"), "{}", e.body);
    assert_eq!(e.body, "unsupported wav format: 2ch 44100Hz 16-bit");
    assert_eq!(runs, 0);
}

#[test]
fn cancellation_during_retry() {
    let mut generation = 0u64;
    let mut retry = Retry::new(3, generation);
    let mut sent = 0;
    let mut slept = Vec::new();
    let outcome = loop {
        if let Err(e) = retry.checkpoint(generation) {
            break e;
        }
        sent += 1;
        let error = MpvSttError::SttFailed(String::from("HTTP send failed: connection refused"));
        match retry.failed(error) {
            AfterFailure::RetryAfter(ms) => {
                slept.push(ms);
                // Another thread cancels during the first pause.
                generation = next_generation(generation);
            }
            AfterFailure::GiveUp(e) => break e,
        }
    };
    assert!(matches!(outcome, MpvSttError::SttCancelled));
    assert_eq!(sent, 1);
    assert_eq!(slept, vec![500]);
}

#[test]
fn unreachable_server_fails_after_the_last_attempt() {
    let mut retry = Retry::new(3, 0);
    let mut sent = 0;
    let mut slept = 0;
    let outcome = loop {
        retry.checkpoint(0).unwrap();
        sent += 1;
        let error = MpvSttError::SttFailed(format!("HTTP send failed: attempt {}", sent));
        match retry.failed(error) {
            AfterFailure::RetryAfter(ms) => slept += ms,
            AfterFailure::GiveUp(e) => break e,
        }
    };
    assert_eq!(sent, 3);
    assert_eq!(slept, 1000);
    assert_eq!(outcome.message(), "STT execution failed: HTTP send failed: attempt 3");
}

#[test]
fn opus_labelled_riff_is_taken_as_wav() {
    let body = write_wav(&vec![0i16; 16000]);
    assert_eq!(&body[..4], b"RIFF");
    let headers = build_request_headers(46, 1000, &shared_token(), true, false);
    let admitted = admit_request(&no_auth(), &headers, body.len()).unwrap();
    assert_eq!(admitted.compression, Compression::Opus);
    assert!(decode_stream(&body).is_err());
    let mut runs = 0;
    let resp = serve(&no_auth(), 0, &headers, &body, &CancelSet::new(), SRT, &mut runs).unwrap();
    assert_eq!(resp.status, 200);
    assert_eq!(resp.body, SRT);
    assert_eq!(runs, 1);
}

#[test]
fn opus_labelled_rubbish_is_400() {
    let body = b"\xff\xff\xff\xffrubbish".to_vec();
    let headers = build_request_headers(47, 0, &shared_token(), true, false);
    let mut runs = 0;
    let e = serve(&no_auth(), 0, &headers, &body, &CancelSet::new(), SRT, &mut runs).unwrap_err();
    assert_eq!((e.status, e.body.as_str()), (400, "Invalid Opus frame length"));
    assert_eq!(runs, 0);
}

#[test]
fn cancelled_job_never_reaches_the_runner() {
    let body = write_wav(&vec![0i16; 16000]);
    let headers = build_request_headers(48, 1000, &shared_token(), false, false);
    let mut cancelled = CancelSet::new();
    cancelled.cancel_request(48);
    let mut runs = 0;
    let e = serve(&no_auth(), 0, &headers, &body, &cancelled, SRT, &mut runs).unwrap_err();
    assert_eq!(runs, 0);
    assert_eq!(e.status, 500);
}

#[test]
fn concurrent_requests_keep_their_own_subtitles() {
    let ids: Vec<u64> = vec![5, 3, 8, 1];
    let results = |order: &[usize]| -> Vec<JobResult> {
        order
            .iter()
            .map(|i| {
                conclude(ids[*i], Ok((format!("srt {}", ids[*i]).into_bytes(), 1)), 0, 0, 2)
            })
            .collect()
    };
    let orders: [[usize; 4]; 6] =
        [[0, 1, 2, 3], [3, 2, 1, 0], [1, 0, 3, 2], [2, 3, 0, 1], [0, 2, 1, 3], [3, 0, 2, 1]];
    for order in orders {
        for id in &ids {
            let mut got = Vec::new();
            for result in results(&order) {
                match match_result(*id, Some(result)) {
                    Awaited::Delivered { srt_data, .. } => got.push(srt_data),
                    Awaited::Unrelated => {}
                    Awaited::Failed(e) => panic!("{:?}", e),
                }
            }
            assert_eq!(got, vec![format!("srt {}", id).into_bytes()]);
        }
    }
}

#[test]
fn wrong_key_is_400() {
    let stream = encode_stream(&vec![0i16; 320]);
    let body = pretend_wrap(1, &stream);
    let headers = build_request_headers(49, 20, &shared_token(), true, true);
    let rules = AccessRules { expected_token: None, has_key: true };
    let mut runs = 0;
    let e = serve(&rules, 2, &headers, &body, &CancelSet::new(), SRT, &mut runs).unwrap_err();
    assert_eq!((e.status, e.body.as_str()), (400, "decrypt failed: authentication failed"));
    assert_eq!(runs, 0);
}
