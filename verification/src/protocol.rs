//! What client and server exchange: header names, the headers of a request as
//! plain text, jobs and their results.

use vstd::prelude::*;

verus! {

pub const HEADER_REQUEST_ID: &'static str = "x-request-id";

pub const HEADER_DURATION_MS: &'static str = "x-duration-ms";

pub const HEADER_AUTH_TOKEN: &'static str = "x-auth-token";

pub const HEADER_COMPRESSION: &'static str = "x-compression";

pub const HEADER_ENCRYPTED: &'static str = "x-encrypted";

pub const HEADER_QUEUE_MS: &'static str = "x-metric-queue-ms";

pub const HEADER_INFER_MS: &'static str = "x-metric-infer-ms";

pub const HEADER_WORKER_MS: &'static str = "x-metric-worker-ms";

pub const HEADER_BYTES_IN: &'static str = "x-bytes-in";

pub const HEADER_BYTES_OUT: &'static str = "x-bytes-out";

pub const COMPRESSION_PCM: &'static str = "pcm";

pub const COMPRESSION_WAV: &'static str = "wav";

pub const COMPRESSION_OPUS: &'static str = "opus";

/// The path that transcription requests are posted to.
pub const TRANSCRIBE_PATH: &'static str = "/transcribe";

/// How a chunk of audio in a `Message` is compressed.
#[derive(Debug, Clone, Copy, PartialEq, Eq, Structural)]
pub enum CompressionFormat {
    Opus,
}

/// A message of the chunked protocol.
#[derive(Debug, Clone)]
pub enum Message {
    AudioChunk {
        request_id: u64,
        chunk_index: u32,
        total_chunks: u32,
        duration_ms: u64,
        data: Vec<u8>,
        auth_token: [u8; 32],
        compression: CompressionFormat,
    },
    Cancel { request_id: u64, auth_token: [u8; 32] },
    Result { request_id: u64, chunk_index: u32, total_chunks: u32, data: Vec<u8> },
    Error { request_id: u64, message: String },
}

impl Message {
    /// The request that a message belongs to.
    pub open spec fn id(self) -> u64 {
        match self {
            Message::AudioChunk { request_id, .. } => request_id,
            Message::Cancel { request_id, .. } => request_id,
            Message::Result { request_id, .. } => request_id,
            Message::Error { request_id, .. } => request_id,
        }
    }

    /// The token that a message carries: only those from the client do.
    pub open spec fn token(self) -> Option<[u8; 32]> {
        match self {
            Message::AudioChunk { auth_token, .. } => Some(auth_token),
            Message::Cancel { auth_token, .. } => Some(auth_token),
            _ => None,
        }
    }

    pub fn request_id(&self) -> (id: u64)
        ensures
            id == self.id(),
    {
        match self {
            Message::AudioChunk { request_id, .. } => *request_id,
            Message::Cancel { request_id, .. } => *request_id,
            Message::Result { request_id, .. } => *request_id,
            Message::Error { request_id, .. } => *request_id,
        }
    }

    pub fn auth_token(&self) -> (token: Option<&[u8; 32]>)
        ensures
            match token {
                Some(t) => self.token() == Some(*t),
                None => self.token() is None,
            },
    {
        match self {
            Message::AudioChunk { auth_token, .. } => Some(auth_token),
            Message::Cancel { auth_token, .. } => Some(auth_token),
            _ => None,
        }
    }
}

/// The timings of one job, in milliseconds.
#[derive(Debug, Clone, Copy)]
pub struct JobMetrics {
    /// From acceptance by the handler to a worker taking the job up.
    pub queue_wait_ms: u64,
    /// Inside the runner.
    pub inference_ms: u64,
    /// From the worker taking the job up to its result being ready.
    pub worker_total_ms: u64,
}

/// A transcription that a worker is to run.
#[derive(Debug)]
pub struct TranscriptionJob {
    pub request_id: u64,
    /// A WAV image that has passed validation.
    pub audio_data: Vec<u8>,
    /// The playing time that the client declared; 0 leaves it to the server.
    pub duration_ms: u64,
    /// The reading of the server's clock, in milliseconds, when the handler
    /// accepted the request.
    pub enqueue_at: u128,
}

/// What a worker reports of a job.
#[derive(Debug)]
pub enum JobResult {
    Success { request_id: u64, srt_data: Vec<u8>, metrics: JobMetrics },
    Error { request_id: u64, message: String },
}

impl JobResult {
    pub open spec fn id(self) -> u64 {
        match self {
            JobResult::Success { request_id, .. } => request_id,
            JobResult::Error { request_id, .. } => request_id,
        }
    }
}

/// The headers of a request that the protocol reads, each as the text of its
/// value, or absent where the request has none or its value is no visible
/// ASCII text.
#[derive(Debug, Clone)]
pub struct RequestHeaders {
    pub request_id: Option<String>,
    pub duration_ms: Option<String>,
    pub auth_token: Option<String>,
    pub compression: Option<String>,
    pub encrypted: Option<String>,
}

/// The headers of a request as mathematical text.
pub ghost struct HeaderTexts {
    pub request_id: Option<Seq<char>>,
    pub duration_ms: Option<Seq<char>>,
    pub auth_token: Option<Seq<char>>,
    pub compression: Option<Seq<char>>,
    pub encrypted: Option<Seq<char>>,
}

pub open spec fn text_of(value: Option<String>) -> Option<Seq<char>> {
    match value {
        Some(s) => Some(s@),
        None => None,
    }
}

impl View for RequestHeaders {
    type V = HeaderTexts;

    open spec fn view(&self) -> HeaderTexts {
        HeaderTexts {
            request_id: text_of(self.request_id),
            duration_ms: text_of(self.duration_ms),
            auth_token: text_of(self.auth_token),
            compression: text_of(self.compression),
            encrypted: text_of(self.encrypted),
        }
    }
}

/// What a request says of its body's form.
#[derive(Debug, Clone, Copy, PartialEq, Eq, Structural)]
pub enum Compression {
    /// `pcm` or `wav`, or no header: the body is a WAV image.
    Wav,
    /// `opus`: the body is a framed Opus stream.
    Opus,
    /// Any other value.
    Unsupported,
}

/// An answer that turns a request down: a status and a one-line text.
#[derive(Debug, Clone)]
pub struct HttpReply {
    pub status: u16,
    pub body: String,
}

impl HttpReply {
    pub open spec fn says(self, status: u16, body: Seq<char>) -> bool {
        self.status == status && self.body@ == body
    }
}

} // verus!
