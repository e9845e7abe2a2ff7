//! The framed Opus stream: records of a four-byte little-endian length and
//! that many bytes of one Opus packet, one after the other, with no header and
//! no trailer.
//!
//! The codec itself is the caller's. This module cuts PCM into frames for the
//! encoder, writes the packets it returns into a stream, and walks a stream
//! record by record for the decoder.

use crate::decimal::{decimal_text, format_u64};
use crate::text::join;
use vstd::prelude::*;
use vstd::string::*;

verus! {

/// Samples in one frame: 20 ms of 16 kHz mono audio.
pub const FRAME_SAMPLES: usize = 320;

/// Room that the encoder is given for one packet.
pub const MAX_PACKET_BYTES: usize = 4000;

/// Room that the decoder is given for one frame: 120 ms at 48 kHz.
pub const MAX_FRAME_SAMPLES: usize = 5760;

/// The number that four bytes denote, least significant first.
pub open spec fn le_u32(b: Seq<u8>) -> nat {
    (b[0] as nat) + 256 * (b[1] as nat) + 65536 * (b[2] as nat) + 16777216 * (b[3] as nat)
}

/// The four bytes of a number, least significant first.
pub open spec fn u32_le(n: nat) -> Seq<u8> {
    seq![
        (n % 256) as u8,
        (n / 256 % 256) as u8,
        (n / 65536 % 256) as u8,
        (n / 16777216 % 256) as u8,
    ]
}

/// One record: the length of the packet, then the packet.
pub open spec fn record(packet: Seq<u8>) -> Seq<u8> {
    u32_le(packet.len()) + packet
}

/// The stream that holds the given packets in order.
pub open spec fn framed(packets: Seq<Seq<u8>>) -> Seq<u8>
    decreases packets.len(),
{
    if packets.len() == 0 {
        Seq::empty()
    } else {
        record(packets[0]) + framed(packets.drop_first())
    }
}

/// The length that the first record of a stream announces.
pub open spec fn announced_len(s: Seq<u8>) -> nat {
    le_u32(s.subrange(0, 4))
}

/// The packets of a stream. Reading stops where fewer than four bytes are
/// left; a record that announces more bytes than remain makes the whole
/// stream invalid.
pub open spec fn parse_records(s: Seq<u8>) -> Option<Seq<Seq<u8>>>
    decreases s.len(),
{
    if s.len() < 4 {
        Some(Seq::empty())
    } else if 4 + announced_len(s) > s.len() {
        None
    } else {
        match parse_records(s.skip(4 + announced_len(s) as int)) {
            Some(rest) => Some(seq![s.subrange(4, 4 + announced_len(s) as int)] + rest),
            None => None,
        }
    }
}

/// The length of PCM after its tail is filled up to whole frames.
pub open spec fn padded_len(n: nat) -> nat {
    ((n + 319) / 320 * 320) as nat
}

/// PCM with zeros after it up to a whole number of frames.
pub open spec fn padded(pcm: Seq<i16>) -> Seq<i16> {
    pcm + Seq::new((padded_len(pcm.len()) - pcm.len()) as nat, |i: int| 0i16)
}

pub proof fn lemma_le_u32_of_u32_le(n: nat)
    requires
        n <= u32::MAX,
    ensures
        u32_le(n).len() == 4,
        le_u32(u32_le(n)) == n,
{
}

/// A stream written from packets reads back as those packets.
pub proof fn lemma_parse_framed(packets: Seq<Seq<u8>>)
    requires
        forall|i: int| 0 <= i < packets.len() ==> (#[trigger] packets[i]).len() <= u32::MAX,
    ensures
        parse_records(framed(packets)) == Some(packets),
    decreases packets.len(),
{
    if packets.len() == 0 {
    } else {
        let p = packets[0];
        let tail = packets.drop_first();
        let s = framed(packets);
        lemma_le_u32_of_u32_le(p.len());
        assert(s.subrange(0, 4) =~= u32_le(p.len()));
        assert(announced_len(s) == p.len());
        assert(s.subrange(4, 4 + p.len() as int) =~= p);
        assert(s.skip(4 + p.len() as int) =~= framed(tail));
        lemma_parse_framed(tail);
        assert(seq![p] + tail =~= packets);
    }
}

/// Padding adds fewer than one frame of zeros and ends on a frame boundary.
pub proof fn lemma_padded_len(n: nat)
    ensures
        padded_len(n) % 320 == 0,
        n <= padded_len(n) < n + 320,
        padded_len(n) == n <==> n % 320 == 0,
{
}

/// Where a walk over a stream stands after looking for the next record.
#[derive(Debug, Clone, Copy, PartialEq, Eq)]
pub enum RecordStep {
    /// Fewer than four bytes are left: the stream is read.
    End,
    /// The record announces more bytes than are left.
    Invalid,
    /// The packet lies at `start..end`; the next record starts at `end`.
    Packet { start: usize, end: usize },
}

/// Reads four bytes, least significant first.
pub fn read_le_u32(bytes: &[u8], at: usize) -> (n: u32)
    requires
        at + 4 <= bytes@.len(),
    ensures
        n == le_u32(bytes@.subrange(at as int, at + 4)),
{
    let b0: u32 = bytes[at] as u32;
    let b1: u32 = bytes[at + 1] as u32;
    let b2: u32 = bytes[at + 2] as u32;
    let b3: u32 = bytes[at + 3] as u32;
    b0 + 256 * b1 + 65536 * b2 + 16777216 * b3
}

/// Looks for the record that starts at `pos`.
pub fn next_record(stream: &[u8], pos: usize) -> (step: RecordStep)
    requires
        pos <= stream@.len(),
    ensures
        match step {
            RecordStep::End => stream@.len() - pos < 4,
            RecordStep::Invalid => {
                &&& stream@.len() - pos >= 4
                &&& 4 + announced_len(stream@.skip(pos as int)) > stream@.len() - pos
            },
            RecordStep::Packet { start, end } => {
                &&& stream@.len() - pos >= 4
                &&& start == pos + 4
                &&& end == start + announced_len(stream@.skip(pos as int))
                &&& end <= stream@.len()
            },
        },
{
    let len: usize = stream.len();
    if len - pos < 4 {
        return RecordStep::End;
    }
    let announced: u32 = read_le_u32(stream, pos);
    assert(stream@.skip(pos as int).subrange(0, 4) =~= stream@.subrange(pos as int, pos + 4));
    let room: usize = len - pos - 4;
    if announced as u64 > room as u64 {
        return RecordStep::Invalid;
    }
    let start: usize = pos + 4;
    RecordStep::Packet { start, end: start + announced as usize }
}

/// Appends one record that holds `packet`.
pub fn push_record(out: &mut Vec<u8>, packet: &[u8])
    requires
        packet@.len() <= u32::MAX,
    ensures
        final(out)@ == old(out)@ + record(packet@),
{
    let n: usize = packet.len();
    let ghost before = out@;
    out.push((n % 256) as u8);
    out.push((n / 256 % 256) as u8);
    out.push((n / 65536 % 256) as u8);
    out.push((n / 16777216 % 256) as u8);
    assert(out@ =~= before + u32_le(n as nat));
    out.extend_from_slice(packet);
    assert(out@ =~= before + record(packet@));
}

/// A stream under construction: the packets that the encoder has returned so
/// far, framed.
pub struct StreamWriter {
    out: Vec<u8>,
    packets: Ghost<Seq<Seq<u8>>>,
}

impl StreamWriter {
    /// The bytes written are the framing of the packets taken.
    pub closed spec fn wf(self) -> bool {
        self.out@ == framed(self.packets@)
    }

    /// The packets taken so far, in order.
    pub closed spec fn packets(self) -> Seq<Seq<u8>> {
        self.packets@
    }

    pub fn new() -> (w: StreamWriter)
        ensures
            w.wf(),
            w.packets() == Seq::<Seq<u8>>::empty(),
    {
        StreamWriter { out: Vec::new(), packets: Ghost(Seq::empty()) }
    }

    /// Takes the packet of the next frame.
    pub fn push(&mut self, packet: &[u8])
        requires
            old(self).wf(),
            packet@.len() <= u32::MAX,
        ensures
            final(self).wf(),
            final(self).packets() == old(self).packets().push(packet@),
    {
        proof {
            lemma_framed_push(self.packets@, packet@);
        }
        push_record(&mut self.out, packet);
        self.packets = Ghost(self.packets@.push(packet@));
    }

    /// The finished stream.
    pub fn finish(self) -> (stream: Vec<u8>)
        requires
            self.wf(),
        ensures
            stream@ == framed(self.packets()),
    {
        self.out
    }
}

/// A walk over a stream, record by record, that gathers what the decoder
/// makes of each packet.
pub struct StreamReader {
    stream: Vec<u8>,
    pos: usize,
    pcm: Vec<i16>,
    packets: Ghost<Seq<Seq<u8>>>,
    outputs: Ghost<Seq<Seq<i16>>>,
}

impl StreamReader {
    /// The walk stands inside the stream, the packets taken so far are those
    /// that the stream holds before that place, and the samples gathered are
    /// what the decoder returned, in order.
    pub closed spec fn wf(self) -> bool {
        &&& self.pos <= self.stream@.len()
        &&& self.pcm@ == joined(self.outputs@)
        &&& match parse_records(self.stream@.skip(self.pos as int)) {
            Some(rest) => parse_records(self.stream@) == Some(self.packets@ + rest),
            None => parse_records(self.stream@) is None,
        }
    }

    pub closed spec fn stream(self) -> Seq<u8> {
        self.stream@
    }

    /// Where in the stream the walk stands.
    pub closed spec fn position(self) -> nat {
        self.pos as nat
    }

    /// The packets handed out so far, in order.
    pub closed spec fn packets(self) -> Seq<Seq<u8>> {
        self.packets@
    }

    /// What the decoder returned for each packet so far, in order.
    pub closed spec fn outputs(self) -> Seq<Seq<i16>> {
        self.outputs@
    }

    /// The samples gathered so far.
    pub closed spec fn pcm(self) -> Seq<i16> {
        self.pcm@
    }

    pub fn new(stream: Vec<u8>) -> (r: StreamReader)
        ensures
            r.wf(),
            r.stream() == stream@,
            r.position() == 0,
            r.packets() == Seq::<Seq<u8>>::empty(),
            r.outputs() == Seq::<Seq<i16>>::empty(),
            r.pcm() == Seq::<i16>::empty(),
    {
        let r = StreamReader {
            stream,
            pos: 0,
            pcm: Vec::new(),
            packets: Ghost(Seq::empty()),
            outputs: Ghost(Seq::empty()),
        };
        proof {
            assert(r.stream@.skip(0) =~= r.stream@);
            if parse_records(r.stream@) is Some {
                assert(Seq::<Seq<u8>>::empty() + parse_records(r.stream@)->0 =~= parse_records(
                    r.stream@,
                )->0);
            }
        }
        r
    }

    /// The bytes of the stream, for the ranges that `next` hands out.
    pub fn bytes(&self) -> (b: &[u8])
        ensures
            b@ == self.stream(),
    {
        self.stream.as_slice()
    }

    /// Moves on to the next record. `Packet` gives the place of a packet for
    /// the decoder and moves the walk behind it; `End` says that the stream
    /// held exactly the packets handed out; `Invalid` that the stream is no
    /// framed stream at all. After `End` and `Invalid` the walk stays where it
    /// is.
    pub fn next(&mut self) -> (step: RecordStep)
        requires
            old(self).wf(),
        ensures
            final(self).wf(),
            final(self).stream() == old(self).stream(),
            final(self).outputs() == old(self).outputs(),
            final(self).pcm() == old(self).pcm(),
            old(self).position() <= old(self).stream().len(),
            match step {
                RecordStep::Packet { start, end } => {
                    &&& old(self).stream().len() - old(self).position() >= 4
                    &&& start == old(self).position() + 4
                    &&& end == start + announced_len(
                        old(self).stream().skip(old(self).position() as int),
                    )
                    &&& end <= old(self).stream().len()
                    &&& final(self).position() == end
                    &&& final(self).packets() == old(self).packets().push(
                        old(self).stream().subrange(start as int, end as int),
                    )
                },
                RecordStep::End => {
                    &&& old(self).stream().len() - old(self).position() < 4
                    &&& final(self).position() == old(self).position()
                    &&& final(self).packets() == old(self).packets()
                    &&& parse_records(old(self).stream()) == Some(old(self).packets())
                },
                RecordStep::Invalid => {
                    &&& old(self).stream().len() - old(self).position() >= 4
                    &&& 4 + announced_len(old(self).stream().skip(old(self).position() as int))
                        > old(self).stream().len() - old(self).position()
                    &&& final(self).position() == old(self).position()
                    &&& final(self).packets() == old(self).packets()
                    &&& parse_records(old(self).stream()) is None
                },
            },
    {
        let step = next_record(self.stream.as_slice(), self.pos);
        let ghost here = self.stream@.skip(self.pos as int);
        match step {
            RecordStep::Packet { start, end } => {
                proof {
                    let n = announced_len(here);
                    let packet = self.stream@.subrange(start as int, end as int);
                    assert(here.subrange(4, 4 + n as int) =~= packet);
                    assert(here.skip(4 + n as int) =~= self.stream@.skip(end as int));
                    match parse_records(self.stream@.skip(end as int)) {
                        Some(rest) => {
                            assert(self.packets@ + (seq![packet] + rest) =~= self.packets@.push(
                                packet,
                            ) + rest);
                        },
                        None => {},
                    }
                }
                self.packets = Ghost(
                    self.packets@.push(self.stream@.subrange(start as int, end as int)),
                );
                self.pos = end;
            },
            RecordStep::End => {
                proof {
                    assert(self.packets@ + Seq::<Seq<u8>>::empty() =~= self.packets@);
                }
            },
            RecordStep::Invalid => {},
        }
        step
    }

    /// Gathers the samples that the decoder made of the last packet.
    pub fn accept(&mut self, samples: &[i16])
        requires
            old(self).wf(),
        ensures
            final(self).wf(),
            final(self).stream() == old(self).stream(),
            final(self).position() == old(self).position(),
            final(self).packets() == old(self).packets(),
            final(self).outputs() == old(self).outputs().push(samples@),
            final(self).pcm() == old(self).pcm() + samples@,
    {
        proof {
            let longer = self.outputs@.push(samples@);
            assert(longer.drop_last() =~= self.outputs@);
        }
        self.pcm.extend_from_slice(samples);
        self.outputs = Ghost(self.outputs@.push(samples@));
        assert(self.pcm@ == joined(self.outputs@));
    }

    /// The samples gathered.
    pub fn into_pcm(self) -> (pcm: Vec<i16>)
        requires
            self.wf(),
        ensures
            pcm@ == self.pcm(),
            pcm@ == joined(self.outputs()),
    {
        self.pcm
    }
}

/// Runs of samples, one after the other.
pub open spec fn joined(parts: Seq<Seq<i16>>) -> Seq<i16>
    decreases parts.len(),
{
    if parts.len() == 0 {
        Seq::empty()
    } else {
        joined(parts.drop_last()) + parts.last()
    }
}

/// Whole frames, one after the other, hold 320 samples each.
pub proof fn lemma_joined_frames_len(parts: Seq<Seq<i16>>)
    requires
        forall|i: int| 0 <= i < parts.len() ==> (#[trigger] parts[i]).len() == 320,
    ensures
        joined(parts).len() == 320 * parts.len(),
    decreases parts.len(),
{
    if parts.len() > 0 {
        lemma_joined_frames_len(parts.drop_last());
    }
}

/// Where the decoder has made one whole frame of every packet handed out, the
/// samples gathered are 320 for each record read.
pub proof fn lemma_decoded_len(reader: StreamReader)
    requires
        reader.wf(),
        reader.outputs().len() == reader.packets().len(),
        forall|i: int|
            0 <= i < reader.outputs().len() ==> (#[trigger] reader.outputs()[i]).len() == 320,
    ensures
        reader.pcm().len() == 320 * reader.packets().len(),
{
    lemma_joined_frames_len(reader.outputs());
}

/// Framing one packet more appends its record.
pub proof fn lemma_framed_push(packets: Seq<Seq<u8>>, packet: Seq<u8>)
    ensures
        framed(packets.push(packet)) == framed(packets) + record(packet),
    decreases packets.len(),
{
    let longer = packets.push(packet);
    if packets.len() == 0 {
        assert(longer.drop_first() =~= Seq::<Seq<u8>>::empty());
        assert(framed(longer.drop_first()) =~= Seq::<u8>::empty());
        assert(longer[0] == packet);
        assert(framed(longer) =~= record(packet));
        assert(framed(packets) + record(packet) =~= record(packet));
    } else {
        assert(longer.drop_first() =~= packets.drop_first().push(packet));
        lemma_framed_push(packets.drop_first(), packet);
        assert(framed(longer) =~= framed(packets) + record(packet));
    }
}

/// What can go wrong between PCM and a framed stream, either way. Where the
/// codec reports a failure, the variant carries the codec's word for it.
#[derive(Debug, Clone)]
pub enum CodecError {
    /// The decoder could not be set up.
    DecoderInit(String),
    /// A record announces more bytes than the stream has left.
    InvalidFraming,
    /// The decoder turned a packet down.
    Decode(String),
    /// The encoder could not be set up.
    EncoderInit(String),
    /// The encoder was handed a frame of this many samples in place of 320.
    FrameSize(usize),
    /// The encoder turned a frame down.
    Encode(String),
}

impl CodecError {
    pub open spec fn text(self) -> Seq<char> {
        match self {
            CodecError::DecoderInit(m) => "Failed to create Opus decoder: "@ + m@,
            CodecError::InvalidFraming => "Invalid Opus frame length"@,
            CodecError::Decode(m) => "Opus decode failed: "@ + m@,
            CodecError::EncoderInit(m) => "Opus encoder init failed: opus_encoder_create failed: "@
                + m@,
            CodecError::FrameSize(got) =>
                "Opus encode failed: invalid frame samples: expected 320, got "@ + decimal_text(
                    got as nat,
                ),
            CodecError::Encode(m) => "Opus encode failed: opus_encode failed: "@ + m@,
        }
    }

    /// The one-line text of this error.
    pub fn message(&self) -> (s: String)
        ensures
            s@ == self.text(),
    {
        match self {
            CodecError::DecoderInit(m) => join("Failed to create Opus decoder: ", m.as_str()),
            CodecError::InvalidFraming => String::from_str("Invalid Opus frame length"),
            CodecError::Decode(m) => join("Opus decode failed: ", m.as_str()),
            CodecError::EncoderInit(m) => join(
                "Opus encoder init failed: opus_encoder_create failed: ",
                m.as_str(),
            ),
            CodecError::FrameSize(got) => join(
                "Opus encode failed: invalid frame samples: expected 320, got ",
                format_u64(*got as u64).as_str(),
            ),
            CodecError::Encode(m) => join("Opus encode failed: opus_encode failed: ", m.as_str()),
        }
    }
}

/// The encoder takes whole frames only.
pub fn check_frame(frame: &[i16]) -> (r: Result<(), CodecError>)
    ensures
        frame@.len() == 320 ==> r is Ok,
        frame@.len() != 320 ==> (r matches Err(CodecError::FrameSize(got)) && got == frame@.len()),
{
    if frame.len() != FRAME_SAMPLES {
        Err(CodecError::FrameSize(frame.len()))
    } else {
        Ok(())
    }
}

/// The number of frames that PCM of `len` samples fills, the last one perhaps
/// only in part.
pub fn frame_count(len: usize) -> (n: usize)
    ensures
        n * 320 == padded_len(len as nat),
{
    if len % FRAME_SAMPLES == 0 {
        len / FRAME_SAMPLES
    } else {
        len / FRAME_SAMPLES + 1
    }
}

/// Fills the tail of `pcm` with zeros up to a whole number of frames.
pub fn pad_to_frames(pcm: &mut Vec<i16>)
    ensures
        final(pcm)@ == padded(old(pcm)@),
{
    let ghost before = pcm@;
    let rem: usize = pcm.len() % FRAME_SAMPLES;
    if rem != 0 {
        let fill: usize = FRAME_SAMPLES - rem;
        let mut k: usize = 0;
        while k < fill
            invariant
                k <= fill,
                fill == 320 - before.len() % 320,
                before.len() % 320 != 0,
                pcm@ == before + Seq::new(k as nat, |i: int| 0i16),
            decreases fill - k,
        {
            pcm.push(0i16);
            assert(pcm@ =~= before + Seq::new((k + 1) as nat, |i: int| 0i16));
            k = k + 1;
        }
        assert(padded_len(before.len()) - before.len() == fill);
    } else {
        assert(pcm@ =~= padded(before));
    }
}

/// The `k`-th frame of PCM that holds whole frames only.
pub fn frame_at(pcm: &[i16], k: usize) -> (frame: &[i16])
    requires
        pcm@.len() % 320 == 0,
        k < pcm@.len() / 320,
    ensures
        frame@ == pcm@.subrange(k * 320, k * 320 + 320),
{
    let len: usize = pcm.len();
    assert(k * 320 + 320 <= len);
    let from: usize = k * 320;
    vstd::slice::slice_subrange(pcm, from, from + 320)
}

} // verus!
