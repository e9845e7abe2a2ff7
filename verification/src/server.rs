//! The server's side of one request: admission by size, request id, token and
//! encryption flag; the choice of decoding; acceptance of the audio as a job;
//! picking the job's result off the shared stream; and the reply.
//!
//! Each step is a function of what the caller has in hand. The caller reads
//! the request, decrypts, runs the codec, queues the job and waits, and asks
//! the next step what follows from the outcome.

use crate::auth::{hex_bytes, is_hex_text, AuthToken};
use crate::decimal::{decimal_text, format_u64, parse_u64, parse_u64_spec};
use crate::framing::CodecError;
use crate::protocol::{
    Compression, HeaderTexts, HttpReply, JobMetrics, JobResult, RequestHeaders, TranscriptionJob,
    COMPRESSION_OPUS, COMPRESSION_PCM, COMPRESSION_WAV,
};
use crate::text::{begins_with_riff, join, same_text, starts_with_riff};
use crate::wav::{
    check_probe, validate_wav, verdict_holds, wav_image, wav_probe, write_wav, WavError, WavProbe,
    MAX_WAV_SAMPLES,
};
use vstd::prelude::*;
use vstd::string::*;

verus! {

/// The largest body that is looked at: 50 MiB.
pub const MAX_BODY_SIZE: usize = 52428800;

/// How long a handler waits for its job's result, in milliseconds.
pub const RESULT_TIMEOUT_MS: u128 = 120000;

/// How long a handler rests after a result that was not its own.
pub const RESULT_POLL_MS: u64 = 50;

pub const STATUS_OK: u16 = 200;

pub const STATUS_BAD_REQUEST: u16 = 400;

pub const STATUS_UNAUTHORIZED: u16 = 401;

pub const STATUS_PAYLOAD_TOO_LARGE: u16 = 413;

pub const STATUS_INTERNAL_SERVER_ERROR: u16 = 500;

/// How a server is set up.
pub struct ServerConfig {
    pub enable_encryption: bool,
    pub encryption_key: String,
    pub auth_secret: String,
    pub warmup: bool,
}

/// What admission holds a request against.
#[derive(Debug, Clone, Copy)]
pub struct AccessRules {
    /// The token that every request must carry; none where the server has no
    /// secret.
    pub expected_token: Option<AuthToken>,
    /// Whether the server has a key to decrypt bodies with.
    pub has_key: bool,
}

impl ServerConfig {
    /// Whether requests must carry a token: they must where a secret is set.
    pub open spec fn requires_token(self) -> bool {
        self.auth_secret@.len() > 0
    }

    /// What a server with this configuration holds requests against;
    /// `token` is the token of its secret.
    pub fn access_rules(&self, token: AuthToken) -> (r: AccessRules)
        ensures
            r.has_key == self.enable_encryption,
            r.expected_token == if self.requires_token() {
                Some(token)
            } else {
                None
            },
    {
        let expected_token = if self.auth_secret.as_str().unicode_len() > 0 {
            Some(token)
        } else {
            None
        };
        AccessRules { expected_token, has_key: self.enable_encryption }
    }
}

/// A request that has passed admission.
#[derive(Debug, Clone, Copy, PartialEq, Eq, Structural)]
pub struct Admission {
    pub request_id: u64,
    /// The declared playing time; 0 where the request declares none.
    pub duration_ms: u64,
    /// Whether the body must be decrypted, and the reply encrypted.
    pub encrypted: bool,
    pub compression: Compression,
}

pub open spec fn request_id_of(h: HeaderTexts) -> Option<u64> {
    match h.request_id {
        Some(s) => parse_u64_spec(s),
        None => None,
    }
}

pub open spec fn duration_of(h: HeaderTexts) -> u64 {
    match h.duration_ms {
        Some(s) => match parse_u64_spec(s) {
            Some(n) => n,
            None => 0,
        },
        None => 0,
    }
}

pub open spec fn is_flagged_encrypted(h: HeaderTexts) -> bool {
    h.encrypted == Some("1"@)
}

pub open spec fn compression_of(h: HeaderTexts) -> Compression {
    match h.compression {
        None => Compression::Wav,
        Some(s) => if s == COMPRESSION_PCM@ || s == COMPRESSION_WAV@ {
            Compression::Wav
        } else if s == COMPRESSION_OPUS@ {
            Compression::Opus
        } else {
            Compression::Unsupported
        },
    }
}

/// Whether a request's token header satisfies the rules: with no expected token
/// any request does; else the header must hold 64 hexadecimal digits that
/// denote the expected token.
pub open spec fn token_accepted(expected: Option<AuthToken>, h: HeaderTexts) -> bool {
    match expected {
        None => true,
        Some(t) => match h.auth_token {
            Some(s) => is_hex_text(s) && s.len() == 64 && hex_bytes(s) == t@,
            None => false,
        },
    }
}

/// The outcome of admission: the admitted request, or the status and text of
/// the refusal. The rules apply in this order.
pub open spec fn admission(rules: AccessRules, h: HeaderTexts, body_len: nat) -> Result<
    Admission,
    (u16, Seq<char>),
> {
    if body_len > MAX_BODY_SIZE {
        Err((413u16, "body too large"@))
    } else if request_id_of(h) is None {
        Err((400u16, "missing x-request-id"@))
    } else if !token_accepted(rules.expected_token, h) {
        Err((401u16, "unauthorized"@))
    } else if is_flagged_encrypted(h) && !rules.has_key {
        Err((400u16, "encryption not enabled"@))
    } else {
        Ok(
            Admission {
                request_id: request_id_of(h)->0,
                duration_ms: duration_of(h),
                encrypted: is_flagged_encrypted(h),
                compression: compression_of(h),
            },
        )
    }
}

/// A body over the limit is turned down with 413, whatever the headers say.
pub proof fn lemma_oversized_body_is_413(rules: AccessRules, h: HeaderTexts, body_len: nat)
    requires
        body_len > MAX_BODY_SIZE,
    ensures
        admission(rules, h, body_len) matches Err(e) && e.0 == 413,
{
}

/// A request of admissible size without a request id, or with one that is no
/// number, is turned down with 400.
pub proof fn lemma_missing_request_id_is_400(rules: AccessRules, h: HeaderTexts, body_len: nat)
    requires
        body_len <= MAX_BODY_SIZE,
        h.request_id is None || parse_u64_spec(h.request_id->0) is None,
    ensures
        admission(rules, h, body_len) matches Err(e) && e.0 == 400,
{
}

/// Where the server expects a token, a request of admissible size with a
/// request id gets 401 exactly if its token is missing or wrong.
pub proof fn lemma_token_decides_401(rules: AccessRules, h: HeaderTexts, body_len: nat)
    requires
        rules.expected_token is Some,
        body_len <= MAX_BODY_SIZE,
        request_id_of(h) is Some,
    ensures
        h.auth_token is None ==> !token_accepted(rules.expected_token, h),
        !token_accepted(rules.expected_token, h) <==> (admission(rules, h, body_len) matches Err(e)
            && e.0 == 401),
{
}

/// An admitted request carries the id, the playing time, the flag and the
/// compression that its headers state.
pub proof fn lemma_admitted_fields(rules: AccessRules, h: HeaderTexts, body_len: nat)
    requires
        admission(rules, h, body_len) is Ok,
    ensures
        body_len <= MAX_BODY_SIZE,
        token_accepted(rules.expected_token, h),
        Some(admission(rules, h, body_len)->Ok_0.request_id) == request_id_of(h),
        admission(rules, h, body_len)->Ok_0.encrypted ==> rules.has_key,
{
}

fn reply(status: u16, text: &str) -> (r: HttpReply)
    ensures
        r.says(status, text@),
{
    HttpReply { status, body: String::from_str(text) }
}

fn read_number(value: &Option<String>) -> (n: Option<u64>)
    ensures
        n == match crate::protocol::text_of(*value) {
            Some(s) => parse_u64_spec(s),
            None => None,
        },
{
    match value {
        Some(s) => parse_u64(s.as_str()),
        None => None,
    }
}

fn check_token(expected: &Option<AuthToken>, headers: &RequestHeaders) -> (ok: bool)
    ensures
        ok == token_accepted(*expected, headers@),
{
    match expected {
        None => true,
        Some(t) => match &headers.auth_token {
            None => false,
            Some(s) => match AuthToken::from_hex(s.as_str()) {
                None => false,
                Some(given) => given.matches(t),
            },
        },
    }
}

fn read_compression(headers: &RequestHeaders) -> (c: Compression)
    ensures
        c == compression_of(headers@),
{
    match &headers.compression {
        None => Compression::Wav,
        Some(s) => {
            if same_text(s.as_str(), COMPRESSION_PCM) || same_text(s.as_str(), COMPRESSION_WAV) {
                Compression::Wav
            } else if same_text(s.as_str(), COMPRESSION_OPUS) {
                Compression::Opus
            } else {
                Compression::Unsupported
            }
        },
    }
}

fn read_encrypted(headers: &RequestHeaders) -> (flag: bool)
    ensures
        flag == is_flagged_encrypted(headers@),
{
    match &headers.encrypted {
        None => false,
        Some(s) => same_text(s.as_str(), "1"),
    }
}

/// Admits a request or turns it down, going by the size of its body and its
/// headers alone.
pub fn admit_request(rules: &AccessRules, headers: &RequestHeaders, body_len: usize) -> (r: Result<
    Admission,
    HttpReply,
>)
    ensures
        match r {
            Ok(a) => admission(*rules, headers@, body_len as nat) == Ok::<
                Admission,
                (u16, Seq<char>),
            >(a),
            Err(e) => admission(*rules, headers@, body_len as nat) == Err::<
                Admission,
                (u16, Seq<char>),
            >((e.status, e.body@)),
        },
{
    if body_len > MAX_BODY_SIZE {
        return Err(reply(STATUS_PAYLOAD_TOO_LARGE, "body too large"));
    }
    let request_id = match read_number(&headers.request_id) {
        Some(id) => id,
        None => {
            return Err(reply(STATUS_BAD_REQUEST, "missing x-request-id"));
        },
    };
    let duration_ms = match read_number(&headers.duration_ms) {
        Some(d) => d,
        None => 0,
    };
    if !check_token(&rules.expected_token, headers) {
        return Err(reply(STATUS_UNAUTHORIZED, "unauthorized"));
    }
    let encrypted = read_encrypted(headers);
    let compression = read_compression(headers);
    if encrypted && !rules.has_key {
        return Err(reply(STATUS_BAD_REQUEST, "encryption not enabled"));
    }
    Ok(Admission { request_id, duration_ms, encrypted, compression })
}

/// The reply to a body that did not decrypt; `reason` is the cipher's word.
pub fn decrypt_rejected(reason: &str) -> (r: HttpReply)
    ensures
        r.says(400, "decrypt failed: "@ + reason@),
{
    HttpReply { status: STATUS_BAD_REQUEST, body: join("decrypt failed: ", reason) }
}

/// The reply where the answer could not be encrypted.
pub fn encrypt_rejected(reason: &str) -> (r: HttpReply)
    ensures
        r.says(500, reason@),
{
    reply(STATUS_INTERNAL_SERVER_ERROR, reason)
}

/// The reply where the job could not be queued.
pub fn enqueue_rejected() -> (r: HttpReply)
    ensures
        r.says(500, "failed to enqueue job"@),
{
    reply(STATUS_INTERNAL_SERVER_ERROR, "failed to enqueue job")
}

/// How the decrypted body becomes a WAV image.
#[derive(Debug, Clone, Copy, PartialEq, Eq, Structural)]
pub enum Decoding {
    /// It is one already.
    AsWav,
    /// It is a framed Opus stream that the codec must decode.
    ThroughOpus,
}

/// Chooses the decoding of an admitted request; a compression that the server
/// does not know is turned down with 400.
pub fn choose_decoding(admitted: &Admission) -> (r: Result<Decoding, HttpReply>)
    ensures
        match admitted.compression {
            Compression::Wav => r == Ok::<Decoding, HttpReply>(Decoding::AsWav),
            Compression::Opus => r == Ok::<Decoding, HttpReply>(Decoding::ThroughOpus),
            Compression::Unsupported => r matches Err(e) && e.says(
                400,
                "unsupported compression"@,
            ),
        },
{
    match admitted.compression {
        Compression::Wav => Ok(Decoding::AsWav),
        Compression::Opus => Ok(Decoding::ThroughOpus),
        Compression::Unsupported => Err(reply(STATUS_BAD_REQUEST, "unsupported compression")),
    }
}

/// What the decoded PCM, or the codec's failure, leads to: the WAV image of
/// the PCM; on failure the body itself where it begins with `RIFF`, since
/// some clients label a WAV image as Opus; else a refusal with the failure's
/// text. PCM too long for one image counts as a failure.
pub open spec fn opus_settlement(payload: Seq<u8>, decoded: Result<Seq<i16>, Seq<char>>) -> Result<
    Seq<u8>,
    (u16, Seq<char>),
> {
    let failure: Option<Seq<char>> = match decoded {
        Ok(pcm) => if pcm.len() <= MAX_WAV_SAMPLES {
            None
        } else {
            Some("decoded audio too long"@)
        },
        Err(m) => Some(m),
    };
    match failure {
        None => Ok(wav_image(decoded->Ok_0)),
        Some(m) => if starts_with_riff(payload) {
            Ok(payload)
        } else {
            Err((400u16, m))
        },
    }
}

/// Settles the Opus decoding of a body: see `opus_settlement`.
pub fn settle_opus(payload: Vec<u8>, decoded: Result<Vec<i16>, CodecError>) -> (r: Result<
    Vec<u8>,
    HttpReply,
>)
    ensures
        match r {
            Ok(image) => opus_settlement(
                payload@,
                match decoded {
                    Ok(pcm) => Ok(pcm@),
                    Err(e) => Err(e.text()),
                },
            ) == Ok::<Seq<u8>, (u16, Seq<char>)>(image@),
            Err(e) => opus_settlement(
                payload@,
                match decoded {
                    Ok(pcm) => Ok(pcm@),
                    Err(e) => Err(e.text()),
                },
            ) == Err::<Seq<u8>, (u16, Seq<char>)>((e.status, e.body@)),
        },
{
    let failure: String = match decoded {
        Ok(pcm) => {
            if pcm.len() <= MAX_WAV_SAMPLES {
                return Ok(write_wav(pcm.as_slice()));
            }
            String::from_str("decoded audio too long")
        },
        Err(e) => e.message(),
    };
    if begins_with_riff(payload.as_slice()) {
        Ok(payload)
    } else {
        Err(HttpReply { status: STATUS_BAD_REQUEST, body: failure })
    }
}

/// What acceptance of audio comes to, given what `hound` found in it: a job
/// for audio that is not empty and passes validation, else a refusal with
/// 400 and the reason.
pub open spec fn acceptance_holds(
    admitted: Admission,
    audio: Seq<u8>,
    found: Result<WavProbe, Seq<char>>,
    now_ms: u128,
    r: Result<TranscriptionJob, HttpReply>,
) -> bool {
    if audio.len() == 0 {
        r matches Err(e) && e.says(400, "empty audio data"@)
    } else {
        match found {
            Ok(p) if p.is_acceptable() => {
                &&& r matches Ok(job)
                &&& job.request_id == admitted.request_id
                &&& job.audio_data@ == audio
                &&& job.duration_ms == admitted.duration_ms
                &&& job.enqueue_at == now_ms
            },
            _ => exists|w: WavError|
                verdict_holds(found, Err(w)) && (r matches Err(e) && e.says(400, w.text())),
        }
    }
}

/// The audio of every job is what was accepted, and reads as a 16 kHz mono
/// 16-bit WAV image with at least one sample.
pub proof fn lemma_job_audio_is_valid(
    admitted: Admission,
    audio: Seq<u8>,
    found: Result<WavProbe, Seq<char>>,
    now_ms: u128,
    r: Result<TranscriptionJob, HttpReply>,
)
    requires
        acceptance_holds(admitted, audio, found, now_ms, r),
        r is Ok,
    ensures
        r->Ok_0.audio_data@ == audio,
        audio.len() > 0,
        found matches Ok(p) && p.is_acceptable(),
{
}

/// Audio at another rate than 16 kHz, or with more or fewer channels than
/// one, is turned down with 400.
pub proof fn lemma_wrong_format_is_400(
    admitted: Admission,
    audio: Seq<u8>,
    found: Result<WavProbe, Seq<char>>,
    now_ms: u128,
    r: Result<TranscriptionJob, HttpReply>,
)
    requires
        acceptance_holds(admitted, audio, found, now_ms, r),
        found matches Ok(p) && (p.sample_rate != 16000 || p.channels != 1),
    ensures
        r matches Err(e) && e.status == 400,
{
}

/// Audio that is not empty and reads as a 16 kHz mono 16-bit WAV image with a
/// first sample becomes a job.
pub proof fn lemma_service_format_is_accepted(
    admitted: Admission,
    audio: Seq<u8>,
    found: Result<WavProbe, Seq<char>>,
    now_ms: u128,
    r: Result<TranscriptionJob, HttpReply>,
)
    requires
        acceptance_holds(admitted, audio, found, now_ms, r),
        audio.len() > 0,
        found matches Ok(p) && p.channels == 1 && p.sample_rate == 16000 && p.bits_per_sample
            == 16 && p.first_sample matches Some(Some(_)),
    ensures
        r is Ok,
{
}

/// Accepts audio whose probe is in hand: see `acceptance_holds`.
pub fn accept_probed(
    admitted: &Admission,
    audio: Vec<u8>,
    found: Result<WavProbe, String>,
    now_ms: u128,
) -> (r: Result<TranscriptionJob, HttpReply>)
    ensures
        acceptance_holds(
            *admitted,
            audio@,
            match found {
                Ok(p) => Ok(p),
                Err(m) => Err(m@),
            },
            now_ms,
            r,
        ),
{
    if audio.len() == 0 {
        return Err(reply(STATUS_BAD_REQUEST, "empty audio data"));
    }
    match check_probe(found) {
        Err(w) => Err(HttpReply { status: STATUS_BAD_REQUEST, body: w.message() }),
        Ok(()) => Ok(
            TranscriptionJob {
                request_id: admitted.request_id,
                audio_data: audio,
                duration_ms: admitted.duration_ms,
                enqueue_at: now_ms,
            },
        ),
    }
}

/// Accepts decoded audio as a job: it must not be empty and must be a 16 kHz
/// mono 16-bit WAV image with at least one sample. `now_ms` is the clock's
/// reading, which the job keeps as the time of its acceptance.
pub fn accept_audio(admitted: &Admission, audio: Vec<u8>, now_ms: u128) -> (r: Result<
    TranscriptionJob,
    HttpReply,
>)
    ensures
        acceptance_holds(*admitted, audio@, wav_probe(audio@), now_ms, r),
{
    if audio.len() == 0 {
        return Err(reply(STATUS_BAD_REQUEST, "empty audio data"));
    }
    match validate_wav(audio.as_slice()) {
        Err(w) => Err(HttpReply { status: STATUS_BAD_REQUEST, body: w.message() }),
        Ok(()) => Ok(
            TranscriptionJob {
                request_id: admitted.request_id,
                audio_data: audio,
                duration_ms: admitted.duration_ms,
                enqueue_at: now_ms,
            },
        ),
    }
}

/// What a handler makes of the next item of the result stream.
#[derive(Debug)]
pub enum Awaited {
    /// Its own job has succeeded.
    Delivered { srt_data: Vec<u8>, metrics: JobMetrics },
    /// Its own job has failed, or the stream has ended.
    Failed(HttpReply),
    /// The result of another request: it is dropped.
    Unrelated,
}

/// What the next item of the result stream means to the request that waits:
/// only a result that carries the request's own id is delivered or reported;
/// the end of the stream is a failure.
pub open spec fn match_holds(request_id: u64, received: Option<JobResult>, a: Awaited) -> bool {
    match received {
        None => a matches Awaited::Failed(e) && e.says(500, "result channel closed"@),
        Some(JobResult::Success { request_id: id, srt_data, metrics }) => if id == request_id {
            a matches Awaited::Delivered { srt_data: s, metrics: m } && s@ == srt_data@ && m
                == metrics
        } else {
            a is Unrelated
        },
        Some(JobResult::Error { request_id: id, message }) => if id == request_id {
            a matches Awaited::Failed(e) && e.says(500, message@)
        } else {
            a is Unrelated
        },
    }
}

/// What a handler is delivered are the subtitles of its own request.
pub proof fn lemma_delivery_is_own(request_id: u64, received: Option<JobResult>, a: Awaited)
    requires
        match_holds(request_id, received, a),
        a is Delivered,
    ensures
        received matches Some(JobResult::Success { request_id: id, srt_data, .. }) && id
            == request_id && a->srt_data@ == srt_data@,
{
}

/// A result never reaches two requests: of two handlers that wait for
/// different requests, at least one finds a given result unrelated.
pub proof fn lemma_results_do_not_cross(
    first_id: u64,
    second_id: u64,
    result: JobResult,
    first: Awaited,
    second: Awaited,
)
    requires
        first_id != second_id,
        match_holds(first_id, Some(result), first),
        match_holds(second_id, Some(result), second),
    ensures
        first is Unrelated || second is Unrelated,
{
}

/// Whatever the order in which the results of requests with different ids
/// arrive, a handler that walks the stream finds every result before its own
/// unrelated and is delivered its own: the subtitles of the job that ran for
/// its request.
pub proof fn lemma_order_of_results_is_immaterial(
    request_id: u64,
    stream: Seq<JobResult>,
    own: int,
    seen: Seq<Awaited>,
)
    requires
        0 <= own < stream.len(),
        stream[own].id() == request_id,
        stream[own] is Success,
        forall|i: int, j: int|
            0 <= i < j < stream.len() ==> (#[trigger] stream[i]).id() != (#[trigger] stream[j]).id(),
        seen.len() == own + 1,
        forall|i: int| 0 <= i <= own ==> match_holds(request_id, Some(stream[i]), #[trigger] seen[i]),
    ensures
        forall|i: int| 0 <= i < own ==> (#[trigger] seen[i]) is Unrelated,
        seen[own] matches Awaited::Delivered { srt_data, .. } && srt_data@
            == stream[own]->Success_srt_data@,
{
    assert forall|i: int| 0 <= i < own implies (#[trigger] seen[i]) is Unrelated by {
        assert(stream[i].id() != stream[own].id());
        assert(match_holds(request_id, Some(stream[i]), seen[i]));
    }
    assert(match_holds(request_id, Some(stream[own]), seen[own]));
}

/// Holds the next item of the result stream against the request that waits.
pub fn match_result(request_id: u64, received: Option<JobResult>) -> (a: Awaited)
    ensures
        match_holds(request_id, received, a),
{
    match received {
        None => Awaited::Failed(reply(STATUS_INTERNAL_SERVER_ERROR, "result channel closed")),
        Some(JobResult::Success { request_id: id, srt_data, metrics }) => {
            if id == request_id {
                Awaited::Delivered { srt_data, metrics }
            } else {
                Awaited::Unrelated
            }
        },
        Some(JobResult::Error { request_id: id, message }) => {
            if id == request_id {
                Awaited::Failed(HttpReply { status: STATUS_INTERNAL_SERVER_ERROR, body: message })
            } else {
                Awaited::Unrelated
            }
        },
    }
}

/// The clock reading after which a handler that began to wait at `start_ms`
/// gives up.
pub fn result_deadline(start_ms: u128) -> (d: u128)
    ensures
        d == if start_ms + RESULT_TIMEOUT_MS <= u128::MAX {
            (start_ms + RESULT_TIMEOUT_MS) as u128
        } else {
            u128::MAX
        },
{
    start_ms.saturating_add(RESULT_TIMEOUT_MS)
}

/// Whether the wait is over: it is once the clock has passed the deadline,
/// and the handler then answers 500.
pub fn check_deadline(now_ms: u128, deadline_ms: u128) -> (r: Option<HttpReply>)
    ensures
        now_ms <= deadline_ms ==> r is None,
        now_ms > deadline_ms ==> (r matches Some(e) && e.says(500, "timeout waiting result"@)),
{
    if now_ms > deadline_ms {
        Some(reply(STATUS_INTERNAL_SERVER_ERROR, "timeout waiting result"))
    } else {
        None
    }
}

/// The metric headers of a successful reply, each a decimal number.
#[derive(Debug, Clone)]
pub struct MetricHeaders {
    pub queue_ms: String,
    pub infer_ms: String,
    pub worker_ms: String,
    pub bytes_in: String,
    pub bytes_out: String,
}

/// A successful reply.
#[derive(Debug, Clone)]
pub struct HttpSuccess {
    pub status: u16,
    pub body: Vec<u8>,
    pub headers: MetricHeaders,
}

/// Puts the reply to a finished job together: status 200, the body as given
/// (the subtitles, encrypted where the request was), the job's timings, the
/// size of the request's body and the size of this one.
pub fn respond(body: Vec<u8>, metrics: &JobMetrics, bytes_in: usize) -> (resp: HttpSuccess)
    ensures
        resp.status == 200,
        resp.body@ == body@,
        resp.headers.queue_ms@ == decimal_text(metrics.queue_wait_ms as nat),
        resp.headers.infer_ms@ == decimal_text(metrics.inference_ms as nat),
        resp.headers.worker_ms@ == decimal_text(metrics.worker_total_ms as nat),
        resp.headers.bytes_in@ == decimal_text(bytes_in as nat),
        resp.headers.bytes_out@ == decimal_text(body@.len()),
{
    let headers = MetricHeaders {
        queue_ms: format_u64(metrics.queue_wait_ms),
        infer_ms: format_u64(metrics.inference_ms),
        worker_ms: format_u64(metrics.worker_total_ms),
        bytes_in: format_u64(bytes_in as u64),
        bytes_out: format_u64(body.len() as u64),
    };
    HttpSuccess { status: STATUS_OK, body, headers }
}

} // verus!
