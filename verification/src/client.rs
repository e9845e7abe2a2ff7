//! The client's side of one transcription: what is uploaded, under which
//! headers, when an attempt is repeated, when the run is abandoned, and what
//! is made of the reply.
//!
//! Reading the audio file, the codec, the cipher, the HTTP exchange, the
//! clock and the sleep between attempts are the caller's; what happens next
//! is decided here.

use crate::auth::{hex_text, lemma_hex_round_trip, AuthToken};
use crate::decimal::{
    decimal_text, format_u64, lemma_parse_decimal_text, parse_u64, parse_u64_spec,
};
use crate::error::MpvSttError;
use crate::framing::{pad_to_frames, padded, CodecError};
use crate::protocol::{
    Compression, HeaderTexts, RequestHeaders, COMPRESSION_OPUS, COMPRESSION_PCM, TRANSCRIBE_PATH,
};
use crate::server::{admission, Admission, AccessRules, MAX_BODY_SIZE};
use crate::text::{all_blank, has_prefix, is_blank, join};
use crate::wav::{
    format_description, format_text, probe_wav, read_wav_samples, wav_probe, wav_samples, WavProbe,
};
use vstd::prelude::*;
use vstd::string::*;

verus! {

/// The pause between two attempts, in milliseconds.
pub const RETRY_DELAY_MS: u64 = 500;

/// How a client is set up.
#[derive(Debug, Clone)]
pub struct ClientConfig {
    pub server_addr: String,
    pub timeout_ms: u64,
    pub max_retry: u32,
    pub use_opus: bool,
    pub enable_encryption: bool,
    pub encryption_key: String,
    pub auth_secret: String,
}

fn stt_failed(text: &str) -> (e: MpvSttError)
    ensures
        e matches MpvSttError::SttFailed(t) && t@ == text@,
{
    MpvSttError::SttFailed(String::from_str(text))
}

/// Turns a configuration down that asks for encryption without a key.
pub fn check_config(config: &ClientConfig) -> (r: Result<(), MpvSttError>)
    ensures
        r is Err <==> config.enable_encryption && config.encryption_key@.len() == 0,
        r matches Err(e) ==> (e matches MpvSttError::SttFailed(t) && t@
            == "Encryption enabled but encryption_key is empty"@),
{
    if config.enable_encryption && config.encryption_key.as_str().unicode_len() == 0 {
        Err(stt_failed("Encryption enabled but encryption_key is empty"))
    } else {
        Ok(())
    }
}

/// The server's address with a scheme: as given where it names `http://` or
/// `https://`, else with `http://` before it.
pub open spec fn normalized_url(raw: Seq<char>) -> Seq<char> {
    if "http://"@.is_prefix_of(raw) || "https://"@.is_prefix_of(raw) {
        raw
    } else {
        "http://"@ + raw
    }
}

pub fn normalize_server_url(raw: &str) -> (url: String)
    ensures
        url@ == normalized_url(raw@),
{
    if has_prefix(raw, "http://") || has_prefix(raw, "https://") {
        String::from_str(raw)
    } else {
        join("http://", raw)
    }
}

/// The address that requests are posted to.
pub fn transcribe_url(server_url: &str) -> (url: String)
    ensures
        url@ == server_url@ + TRANSCRIBE_PATH@,
{
    join(server_url, TRANSCRIBE_PATH)
}

/// A request id from the wall clock: the nanoseconds since the epoch, cut to
/// 64 bits.
pub fn request_id_from_nanos(nanos: u128) -> (id: u64)
    ensures
        id == nanos % 0x1_0000_0000_0000_0000,
{
    (nanos % 0x1_0000_0000_0000_0000u128) as u64
}

/// Whether a run that began at `run_generation` has been cancelled since:
/// every cancellation moves the generation on.
pub open spec fn is_cancelled_since(run_generation: u64, generation_now: u64) -> bool {
    run_generation != generation_now
}

/// The generation after a number of cancellations: the counter starts again
/// at 0 after the largest `u64`.
pub open spec fn generation_after(generation: u64, cancellations: nat) -> u64 {
    ((generation + cancellations) % 0x1_0000_0000_0000_0000) as u64
}

/// A run sees that it was cancelled, however often that was, short of 2^64
/// times.
pub proof fn lemma_cancellation_is_seen(run_generation: u64, cancellations: nat)
    requires
        0 < cancellations < 0x1_0000_0000_0000_0000,
    ensures
        is_cancelled_since(run_generation, generation_after(run_generation, cancellations)),
{
}

/// The generation after one more cancellation.
pub fn next_generation(generation: u64) -> (next: u64)
    ensures
        next == generation_after(generation, 1),
{
    if generation == u64::MAX {
        0
    } else {
        generation + 1
    }
}

/// What is uploaded.
#[derive(Debug)]
pub enum Upload {
    /// The WAV image as it was read.
    Wav(Vec<u8>),
    /// PCM in whole frames, for the encoder.
    Frames(Vec<i16>),
}

/// The check of an image's format on the client: it must read as a WAV image
/// and be 16 kHz mono 16-bit.
pub open spec fn upload_format_holds(found: Result<WavProbe, Seq<char>>, r: Result<(), MpvSttError>)
    -> bool {
    match found {
        Err(m) => r matches Err(MpvSttError::SttFailed(t)) && t@ == "Failed to read WAV: "@ + m,
        Ok(p) => if p.has_service_format() {
            r is Ok
        } else {
            r matches Err(MpvSttError::SttFailed(t)) && t@ == "Unsupported WAV format: "@
                + format_text(p.channels, p.sample_rate, p.bits_per_sample)
        },
    }
}

pub fn check_upload_format(found: Result<WavProbe, String>) -> (r: Result<(), MpvSttError>)
    ensures
        upload_format_holds(
            match found {
                Ok(p) => Ok(p),
                Err(m) => Err(m@),
            },
            r,
        ),
{
    match found {
        Err(m) => Err(MpvSttError::SttFailed(join("Failed to read WAV: ", m.as_str()))),
        Ok(p) => {
            if p.channels != 1 || p.sample_rate != 16000 || p.bits_per_sample != 16 {
                Err(
                    MpvSttError::SttFailed(
                        join(
                            "Unsupported WAV format: ",
                            format_description(
                                p.channels,
                                p.sample_rate,
                                p.bits_per_sample,
                            ).as_str(),
                        ),
                    ),
                )
            } else {
                Ok(())
            }
        },
    }
}

/// The frames for the encoder: the samples with zeros after them up to a
/// whole number of frames; no samples at all is a failure.
pub open spec fn frames_hold(samples: Result<Seq<i16>, Seq<char>>, r: Result<Vec<i16>, MpvSttError>)
    -> bool {
    match samples {
        Err(m) => r matches Err(MpvSttError::SttFailed(t)) && t@ == "Read WAV samples failed: "@
            + m,
        Ok(pcm) => if pcm.len() == 0 {
            r matches Err(MpvSttError::SttFailed(t)) && t@ == "Audio data is empty"@
        } else {
            r matches Ok(v) && v@ == padded(pcm)
        },
    }
}

pub fn frames_of(samples: Result<Vec<i16>, String>) -> (r: Result<Vec<i16>, MpvSttError>)
    ensures
        frames_hold(
            match samples {
                Ok(v) => Ok(v@),
                Err(m) => Err(m@),
            },
            r,
        ),
{
    match samples {
        Err(m) => Err(MpvSttError::SttFailed(join("Read WAV samples failed: ", m.as_str()))),
        Ok(pcm) => {
            if pcm.len() == 0 {
                return Err(stt_failed("Audio data is empty"));
            }
            let mut frames = pcm;
            pad_to_frames(&mut frames);
            Ok(frames)
        },
    }
}

/// What a WAV image is uploaded as: a failure where it does not pass the
/// format check; the image itself without Opus; with Opus, its samples in
/// whole frames.
pub fn prepare_upload(image: Vec<u8>, use_opus: bool) -> (r: Result<Upload, MpvSttError>)
    ensures
        match r {
            Err(e) => upload_format_holds(wav_probe(image@), Err(e)) || (use_opus
                && upload_format_holds(wav_probe(image@), Ok(())) && frames_hold(
                wav_samples(image@),
                Err(e),
            )),
            Ok(Upload::Wav(bytes)) => !use_opus && bytes@ == image@ && upload_format_holds(
                wav_probe(image@),
                Ok(()),
            ),
            Ok(Upload::Frames(frames)) => use_opus && upload_format_holds(
                wav_probe(image@),
                Ok(()),
            ) && frames_hold(wav_samples(image@), Ok(frames)),
        },
{
    match check_upload_format(probe_wav(image.as_slice())) {
        Err(e) => Err(e),
        Ok(()) => {
            if !use_opus {
                Ok(Upload::Wav(image))
            } else {
                match frames_of(read_wav_samples(image.as_slice())) {
                    Err(e) => Err(e),
                    Ok(frames) => Ok(Upload::Frames(frames)),
                }
            }
        },
    }
}

/// A failure of the codec as the client reports it.
pub fn codec_failure(e: &CodecError) -> (r: MpvSttError)
    ensures
        r matches MpvSttError::SttFailed(t) && t@ == e.text(),
{
    MpvSttError::SttFailed(e.message())
}

/// Turns an upload down that holds nothing.
pub fn check_payload(payload: &[u8]) -> (r: Result<(), MpvSttError>)
    ensures
        r is Err <==> payload@.len() == 0,
        r matches Err(e) ==> (e matches MpvSttError::SttFailed(t) && t@ == "Audio data is empty"@),
{
    if payload.len() == 0 {
        Err(stt_failed("Audio data is empty"))
    } else {
        Ok(())
    }
}

/// The headers of a request as text.
pub open spec fn request_texts(
    request_id: u64,
    duration_ms: u64,
    token: Seq<u8>,
    use_opus: bool,
    encrypted: bool,
) -> HeaderTexts {
    HeaderTexts {
        request_id: Some(decimal_text(request_id as nat)),
        duration_ms: Some(decimal_text(duration_ms as nat)),
        auth_token: Some(hex_text(token)),
        compression: Some(
            if use_opus {
                COMPRESSION_OPUS@
            } else {
                COMPRESSION_PCM@
            },
        ),
        encrypted: if encrypted {
            Some("1"@)
        } else {
            None
        },
    }
}

/// Writes the headers of a request.
pub fn build_request_headers(
    request_id: u64,
    duration_ms: u64,
    token: &AuthToken,
    use_opus: bool,
    encrypted: bool,
) -> (headers: RequestHeaders)
    ensures
        headers@ == request_texts(request_id, duration_ms, token@, use_opus, encrypted),
{
    RequestHeaders {
        request_id: Some(format_u64(request_id)),
        duration_ms: Some(format_u64(duration_ms)),
        auth_token: Some(token.to_hex()),
        compression: Some(
            String::from_str(
                if use_opus {
                    COMPRESSION_OPUS
                } else {
                    COMPRESSION_PCM
                },
            ),
        ),
        encrypted: if encrypted {
            Some(String::from_str("1"))
        } else {
            None
        },
    }
}

/// A server admits what a client writes: where the body is within the limit,
/// the server expects no token or the client's, and has a key if the request
/// is encrypted, the request is admitted with the id, the playing time, the
/// flag and the compression that the client meant.
pub proof fn lemma_built_request_is_admitted(
    rules: AccessRules,
    request_id: u64,
    duration_ms: u64,
    token: AuthToken,
    use_opus: bool,
    encrypted: bool,
    body_len: nat,
)
    requires
        body_len <= MAX_BODY_SIZE,
        rules.expected_token matches Some(t) ==> t@ == token@,
        encrypted ==> rules.has_key,
    ensures
        admission(
            rules,
            request_texts(request_id, duration_ms, token@, use_opus, encrypted),
            body_len,
        ) == Ok::<Admission, (u16, Seq<char>)>(
            Admission {
                request_id,
                duration_ms,
                encrypted,
                compression: if use_opus {
                    Compression::Opus
                } else {
                    Compression::Wav
                },
            },
        ),
{
    lemma_parse_decimal_text(request_id);
    lemma_parse_decimal_text(duration_ms);
    lemma_hex_round_trip(token@);
    token.lemma_len();
    reveal_strlit("opus");
    reveal_strlit("pcm");
    reveal_strlit("wav");
    assert("opus"@ != "pcm"@) by {
        assert("opus"@.len() == 4 && "pcm"@.len() == 3);
    }
    assert("opus"@ != "wav"@) by {
        assert("opus"@.len() == 4 && "wav"@.len() == 3);
    }
}

/// Where a run of attempts stands.
#[derive(Debug)]
pub struct Retry {
    max_retry: u32,
    attempts: u32,
    run_generation: u64,
}

/// What follows a failed attempt.
#[derive(Debug)]
pub enum AfterFailure {
    /// Another attempt, after a pause of this many milliseconds.
    RetryAfter(u64),
    /// The run ends with this error.
    GiveUp(MpvSttError),
}

impl Retry {
    /// Attempts made so far.
    pub closed spec fn attempts(self) -> nat {
        self.attempts as nat
    }

    /// Attempts allowed in all.
    pub closed spec fn max_retry(self) -> nat {
        self.max_retry as nat
    }

    /// The cancel generation that the run began at.
    pub closed spec fn run_generation(self) -> u64 {
        self.run_generation
    }

    /// Another attempt is allowed.
    pub open spec fn may_attempt(self) -> bool {
        self.attempts() < self.max_retry()
    }

    /// Begins a run of at most `max_retry` attempts at the given cancel
    /// generation.
    pub fn new(max_retry: u32, run_generation: u64) -> (r: Retry)
        requires
            max_retry > 0,
        ensures
            r.attempts() == 0,
            r.max_retry() == max_retry,
            r.run_generation() == run_generation,
            r.may_attempt(),
    {
        Retry { max_retry, attempts: 0, run_generation }
    }

    /// The check before an attempt is sent, and again when the head of its
    /// reply has come: a run that was cancelled meanwhile ends with
    /// `SttCancelled`.
    pub fn checkpoint(&self, generation_now: u64) -> (r: Result<(), MpvSttError>)
        ensures
            r is Err <==> is_cancelled_since(self.run_generation(), generation_now),
            r matches Err(e) ==> e is SttCancelled,
    {
        if self.run_generation != generation_now {
            Err(MpvSttError::SttCancelled)
        } else {
            Ok(())
        }
    }

    /// Records that an attempt has failed and says what follows: a transient
    /// error is tried again after a pause while attempts remain; any other
    /// error, and the last attempt's, ends the run.
    pub fn failed(&mut self, error: MpvSttError) -> (next: AfterFailure)
        requires
            old(self).may_attempt(),
        ensures
            final(self).attempts() == old(self).attempts() + 1,
            final(self).max_retry() == old(self).max_retry(),
            final(self).run_generation() == old(self).run_generation(),
            next == if error.is_transient() && final(self).may_attempt() {
                AfterFailure::RetryAfter(RETRY_DELAY_MS)
            } else {
                AfterFailure::GiveUp(error)
            },
    {
        self.attempts = self.attempts + 1;
        if error.is_retryable() && self.attempts < self.max_retry {
            AfterFailure::RetryAfter(RETRY_DELAY_MS)
        } else {
            AfterFailure::GiveUp(error)
        }
    }
}

/// A run makes at most `max_retry` attempts: after that many failures no
/// further attempt is allowed.
pub proof fn lemma_attempts_are_bounded(r: Retry)
    requires
        r.attempts() >= r.max_retry(),
    ensures
        !r.may_attempt(),
{
}

/// Whether a status stands for success: 200 to 299.
pub fn is_success_status(status: u16) -> (ok: bool)
    ensures
        ok == (200 <= status < 300),
{
    200 <= status && status < 300
}

/// The error for a reply whose status is no success. `status_line` is the
/// status as text, `body` the reply's text where it could be read.
pub fn server_error(status_line: &str, body: Option<&str>) -> (e: MpvSttError)
    ensures
        e matches MpvSttError::SttFailed(t) && t@ == "Server error ("@ + status_line@ + "): "@
            + match body {
            Some(b) => b@,
            None => "unknown error"@,
        },
{
    let mut text = join("Server error (", status_line);
    text.append("): ");
    match body {
        Some(b) => text.append(b),
        None => text.append("unknown error"),
    }
    MpvSttError::SttFailed(text)
}

/// The number in a metric header: 0 where the header is absent or holds no
/// number.
pub open spec fn metric_of(value: Option<Seq<char>>) -> u64 {
    match value {
        Some(s) => match parse_u64_spec(s) {
            Some(n) => n,
            None => 0,
        },
        None => 0,
    }
}

/// The client reads from a metric header the number that the server wrote
/// into it.
pub proof fn lemma_metric_reads_back(n: u64)
    ensures
        metric_of(Some(decimal_text(n as nat))) == n,
{
    lemma_parse_decimal_text(n);
}

pub fn parse_u64_header(value: Option<&str>) -> (n: u64)
    ensures
        n == metric_of(
            match value {
                Some(s) => Some(s@),
                None => None,
            },
        ),
{
    match value {
        Some(s) => match parse_u64(s) {
            Some(n) => n,
            None => 0,
        },
        None => 0,
    }
}

/// Where the time of one exchange went, in milliseconds.
#[derive(Debug, Clone, Copy, PartialEq, Eq, Structural)]
pub struct TransferTiming {
    /// From sending the request to having the reply.
    pub wall_ms: u64,
    /// What is left of `wall_ms` after the server's share.
    pub network_ms: u64,
    pub server_queue_ms: u64,
    pub server_worker_ms: u64,
    pub server_infer_ms: u64,
    /// The worker's time outside the runner.
    pub server_non_infer_ms: u64,
}

pub open spec fn saturating_sum(a: u64, b: u64) -> u64 {
    if a + b > u64::MAX {
        u64::MAX
    } else {
        (a + b) as u64
    }
}

pub open spec fn saturating_difference(a: u64, b: u64) -> u64 {
    if a < b {
        0
    } else {
        (a - b) as u64
    }
}

/// Splits the time of an exchange between network, queue and runner, going
/// by the server's metric headers.
pub fn attribute_time(wall_ms: u64, queue_ms: u64, worker_ms: u64, infer_ms: u64) -> (t:
    TransferTiming)
    ensures
        t == (TransferTiming {
            wall_ms,
            network_ms: saturating_difference(wall_ms, saturating_sum(queue_ms, worker_ms)),
            server_queue_ms: queue_ms,
            server_worker_ms: worker_ms,
            server_infer_ms: infer_ms,
            server_non_infer_ms: saturating_difference(worker_ms, infer_ms),
        }),
{
    let server_total_ms: u64 = queue_ms.saturating_add(worker_ms);
    TransferTiming {
        wall_ms,
        network_ms: wall_ms.saturating_sub(server_total_ms),
        server_queue_ms: queue_ms,
        server_worker_ms: worker_ms,
        server_infer_ms: infer_ms,
        server_non_infer_ms: worker_ms.saturating_sub(infer_ms),
    }
}

/// What becomes of the subtitles that came back.
#[derive(Debug)]
pub enum Install {
    /// They are blank: an empty subtitle file is written.
    Empty,
    /// They are parsed and written.
    Parse(Vec<u8>),
}

/// Decides on the subtitles of a finished exchange: a run that was cancelled
/// meanwhile ends with `SttCancelled` and installs nothing; blank subtitles
/// give an empty file; anything else is to be parsed.
pub fn settle_subtitles(run_generation: u64, generation_now: u64, srt: Vec<u8>) -> (r: Result<
    Install,
    MpvSttError,
>)
    ensures
        is_cancelled_since(run_generation, generation_now) ==> r matches Err(
            MpvSttError::SttCancelled,
        ),
        !is_cancelled_since(run_generation, generation_now) && is_blank(srt@) ==> r matches Ok(
            Install::Empty,
        ),
        !is_cancelled_since(run_generation, generation_now) && !is_blank(srt@) ==> (r matches Ok(
            Install::Parse(text),
        ) && text@ == srt@),
{
    if run_generation != generation_now {
        Err(MpvSttError::SttCancelled)
    } else if all_blank(srt.as_slice()) {
        Ok(Install::Empty)
    } else {
        Ok(Install::Parse(srt))
    }
}

} // verus!
