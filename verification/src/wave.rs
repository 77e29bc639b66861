//! PCM wave files: the RIFF chunks of a reference recording, and the
//! comparison of a captured payload with it.

use vstd::prelude::*;

use crate::bytes::{
    law_le16_round_trip, law_le32_round_trip, le16, le16_bytes, le32, le32_bytes, le_u16, le_u32,
    lemma_le16_at, lemma_le32_at, same_bytes,
};

verus! {

/// A PCM wave file: the format fields and the sample bytes.
#[derive(Debug, Clone, PartialEq, Eq)]
pub struct ParsedPcmWave {
    pub channels: u16,
    pub sample_rate: u32,
    pub byte_rate: u32,
    pub block_align: u16,
    pub bits_per_sample: u16,
    pub data: Vec<u8>,
}

/// What a [`ParsedPcmWave`] holds.
pub struct PcmWave {
    pub channels: u16,
    pub sample_rate: u32,
    pub byte_rate: u32,
    pub block_align: u16,
    pub bits_per_sample: u16,
    pub data: Seq<u8>,
}

impl View for ParsedPcmWave {
    type V = PcmWave;

    open spec fn view(&self) -> PcmWave {
        PcmWave {
            channels: self.channels,
            sample_rate: self.sample_rate,
            byte_rate: self.byte_rate,
            block_align: self.block_align,
            bits_per_sample: self.bits_per_sample,
            data: self.data@,
        }
    }
}

/// Why bytes are not a PCM wave file.
#[derive(Debug, Clone, Copy, PartialEq, Eq)]
pub enum WaveError {
    TooSmall,
    MissingRiff,
    MissingWave,
    FmtTooSmall,
    NotPcm,
    MissingFmt,
    MissingData,
}

impl WaveError {
    /// The message of the error.
    pub open spec fn text(self) -> Seq<char> {
        match self {
            WaveError::TooSmall => "wav is too small"@,
            WaveError::MissingRiff => "wav missing RIFF header"@,
            WaveError::MissingWave => "wav missing WAVE signature"@,
            WaveError::FmtTooSmall => "wav fmt chunk too small"@,
            WaveError::NotPcm => "wav is not PCM"@,
            WaveError::MissingFmt => "wav missing fmt chunk"@,
            WaveError::MissingData => "wav missing data chunk"@,
        }
    }

    pub fn message(&self) -> (message: String)
        ensures
            message@ == self.text(),
    {
        match self {
            WaveError::TooSmall => "wav is too small".to_owned(),
            WaveError::MissingRiff => "wav missing RIFF header".to_owned(),
            WaveError::MissingWave => "wav missing WAVE signature".to_owned(),
            WaveError::FmtTooSmall => "wav fmt chunk too small".to_owned(),
            WaveError::NotPcm => "wav is not PCM".to_owned(),
            WaveError::MissingFmt => "wav missing fmt chunk".to_owned(),
            WaveError::MissingData => "wav missing data chunk".to_owned(),
        }
    }
}

/// A RIFF chunk: its four-byte name and its body.
pub struct Chunk {
    pub id: Seq<u8>,
    pub body: Seq<u8>,
}

pub open spec fn riff_tag() -> Seq<u8> {
    seq!['R' as u8, 'I' as u8, 'F' as u8, 'F' as u8]
}

pub open spec fn wave_tag() -> Seq<u8> {
    seq!['W' as u8, 'A' as u8, 'V' as u8, 'E' as u8]
}

pub open spec fn fmt_tag() -> Seq<u8> {
    seq!['f' as u8, 'm' as u8, 't' as u8, ' ' as u8]
}

pub open spec fn data_tag() -> Seq<u8> {
    seq!['d' as u8, 'a' as u8, 't' as u8, 'a' as u8]
}

/// The length of the body of the chunk whose header starts at `cursor`. A
/// chunk that declares no length, or more than is left, runs to the end.
pub open spec fn body_len(bytes: Seq<u8>, cursor: int) -> int {
    let declared = le32(bytes, cursor + 4);
    let available = bytes.len() - (cursor + 8);
    if declared == 0 || declared > available {
        available
    } else {
        declared
    }
}

/// The chunks from `cursor` on: each has an eight-byte header, and a body of
/// odd length is followed by a padding byte.
pub open spec fn chunks_from(bytes: Seq<u8>, cursor: int) -> Seq<Chunk>
    decreases bytes.len() + 1 - cursor,
{
    if cursor < 0 || cursor + 8 > bytes.len() {
        Seq::empty()
    } else {
        let len = body_len(bytes, cursor);
        let chunk = Chunk {
            id: bytes.subrange(cursor, cursor + 4),
            body: bytes.subrange(cursor + 8, cursor + 8 + len),
        };
        seq![chunk] + chunks_from(bytes, cursor + 8 + len + len % 2)
    }
}

/// What is wrong with the body of a `fmt ` chunk.
pub open spec fn fmt_fault(body: Seq<u8>) -> Option<WaveError> {
    if body.len() < 16 {
        Some(WaveError::FmtTooSmall)
    } else if le16(body, 0) != 1 {
        Some(WaveError::NotPcm)
    } else {
        None
    }
}

/// What is wrong with the first faulty `fmt ` chunk.
pub open spec fn first_fault(chunks: Seq<Chunk>) -> Option<WaveError>
    decreases chunks.len(),
{
    if chunks.len() == 0 {
        None
    } else {
        match first_fault(chunks.drop_last()) {
            Some(fault) => Some(fault),
            None => if chunks.last().id == fmt_tag() {
                fmt_fault(chunks.last().body)
            } else {
                None
            },
        }
    }
}

/// The body of the last chunk that is named `id`.
pub open spec fn last_body(chunks: Seq<Chunk>, id: Seq<u8>) -> Option<Seq<u8>>
    decreases chunks.len(),
{
    if chunks.len() == 0 {
        None
    } else if chunks.last().id == id {
        Some(chunks.last().body)
    } else {
        last_body(chunks.drop_last(), id)
    }
}

/// The wave file that a `fmt ` body and a `data` body describe.
pub open spec fn wave_of(fmt: Seq<u8>, data: Seq<u8>) -> PcmWave {
    PcmWave {
        channels: le16(fmt, 2) as u16,
        sample_rate: le32(fmt, 4) as u32,
        byte_rate: le32(fmt, 8) as u32,
        block_align: le16(fmt, 12) as u16,
        bits_per_sample: le16(fmt, 14) as u16,
        data: data,
    }
}

/// The wave file that `bytes` hold: a RIFF header, the WAVE signature, and
/// chunks, of which the last `fmt ` and the last `data` count.
pub open spec fn wave_in(bytes: Seq<u8>) -> Result<PcmWave, WaveError> {
    let chunks = chunks_from(bytes, 12);
    if bytes.len() < 12 {
        Err(WaveError::TooSmall)
    } else if bytes.subrange(0, 4) != riff_tag() {
        Err(WaveError::MissingRiff)
    } else if bytes.subrange(8, 12) != wave_tag() {
        Err(WaveError::MissingWave)
    } else if first_fault(chunks) is Some {
        Err(first_fault(chunks)->0)
    } else if last_body(chunks, fmt_tag()) is None {
        Err(WaveError::MissingFmt)
    } else if last_body(chunks, data_tag()) is None {
        Err(WaveError::MissingData)
    } else {
        Ok(wave_of(last_body(chunks, fmt_tag())->0, last_body(chunks, data_tag())->0))
    }
}

/// Whether the four bytes at `at` are `tag`.
fn tag_at(bytes: &[u8], at: usize, tag: [u8; 4]) -> (matched: bool)
    requires
        at + 4 <= bytes@.len(),
    ensures
        matched == (bytes@.subrange(at as int, at + 4) == tag@),
{
    let matched = bytes[at] == tag[0] && bytes[at + 1] == tag[1] && bytes[at + 2] == tag[2]
        && bytes[at + 3] == tag[3];
    proof {
        let found = bytes@.subrange(at as int, at + 4);
        assert(found[0] == bytes@[at as int] && found[1] == bytes@[at + 1] && found[2]
            == bytes@[at + 2] && found[3] == bytes@[at + 3]);
        if matched {
            assert(found =~= tag@);
        }
    }
    matched
}

/// A fault found in a prefix of the chunks is the first fault of all.
proof fn lemma_fault_in_prefix(prefix: Seq<Chunk>, rest: Seq<Chunk>)
    requires
        first_fault(prefix) is Some,
    ensures
        first_fault(prefix + rest) == first_fault(prefix),
    decreases rest.len(),
{
    if rest.len() == 0 {
        assert(prefix + rest =~= prefix);
    } else {
        lemma_fault_in_prefix(prefix, rest.drop_last());
        assert((prefix + rest).drop_last() =~= prefix + rest.drop_last());
    }
}

/// Copies the bytes of a slice.
fn copy_of(bytes: &[u8]) -> (copy: Vec<u8>)
    ensures
        copy@ == bytes@,
{
    let mut copy: Vec<u8> = Vec::new();
    copy.extend_from_slice(bytes);
    assert(copy@ =~= bytes@);
    copy
}

/// Parses a PCM wave file.
pub fn parse_pcm_wave_bytes(bytes: &[u8]) -> (result: Result<ParsedPcmWave, WaveError>)
    ensures
        match result {
            Ok(wave) => wave_in(bytes@) == Ok::<PcmWave, WaveError>(wave@),
            Err(error) => wave_in(bytes@) == Err::<PcmWave, WaveError>(error),
        },
{
    if bytes.len() < 12 {
        return Err(WaveError::TooSmall);
    }
    let riff: [u8; 4] = ['R' as u8, 'I' as u8, 'F' as u8, 'F' as u8];
    let wave: [u8; 4] = ['W' as u8, 'A' as u8, 'V' as u8, 'E' as u8];
    let fmt_id: [u8; 4] = ['f' as u8, 'm' as u8, 't' as u8, ' ' as u8];
    let data_id: [u8; 4] = ['d' as u8, 'a' as u8, 't' as u8, 'a' as u8];
    assert(riff@ =~= riff_tag() && wave@ =~= wave_tag());
    assert(fmt_id@ =~= fmt_tag() && data_id@ =~= data_tag());
    if !tag_at(bytes, 0, riff) {
        return Err(WaveError::MissingRiff);
    }
    if !tag_at(bytes, 8, wave) {
        return Err(WaveError::MissingWave);
    }
    let mut cursor: usize = 12;
    let mut fmt: Option<ParsedPcmWave> = None;
    let mut data: Option<Vec<u8>> = None;
    let ghost mut seen: Seq<Chunk> = Seq::empty();
    assert(seen + chunks_from(bytes@, 12) =~= chunks_from(bytes@, 12));
    assert(fmt_tag()[0] != data_tag()[0]);
    while cursor <= bytes.len() - 8
        invariant
            12 <= bytes@.len(),
            12 <= cursor <= bytes@.len(),
            bytes@.subrange(0, 4) == riff_tag(),
            bytes@.subrange(8, 12) == wave_tag(),
            fmt_id@ == fmt_tag(),
            data_id@ == data_tag(),
            fmt_tag() != data_tag(),
            chunks_from(bytes@, 12) == seen + chunks_from(bytes@, cursor as int),
            first_fault(seen) is None,
            fmt is Some <==> last_body(seen, fmt_tag()) is Some,
            fmt matches Some(found) ==> found@ == wave_of(
                last_body(seen, fmt_tag())->0,
                Seq::empty(),
            ),
            data is Some <==> last_body(seen, data_tag()) is Some,
            data matches Some(found) ==> found@ == last_body(seen, data_tag())->0,
        decreases bytes@.len() - cursor,
    {
        let start: usize = cursor;
        let chunk_len: usize = le_u32(&bytes[start + 4..start + 8]) as usize;
        proof {
            lemma_le32_at(bytes@, start + 4);
        }
        cursor = start + 8;
        let available_len: usize = bytes.len() - cursor;
        let clamped_chunk_len: usize = if chunk_len == 0 || chunk_len > available_len {
            available_len
        } else {
            chunk_len
        };
        assert(clamped_chunk_len == body_len(bytes@, start as int));
        let chunk: &[u8] = &bytes[cursor..cursor + clamped_chunk_len];
        let ghost here = Chunk { id: bytes@.subrange(start as int, start + 4), body: chunk@ };
        let ghost next = start + 8 + clamped_chunk_len + clamped_chunk_len % 2;
        proof {
            assert(chunks_from(bytes@, start as int) == seq![here] + chunks_from(bytes@, next));
            assert(chunks_from(bytes@, 12) =~= seen.push(here) + chunks_from(bytes@, next));
            assert(seen.push(here).drop_last() =~= seen);
        }
        if tag_at(bytes, start, fmt_id) {
            if clamped_chunk_len < 16 {
                proof {
                    assert(first_fault(seen.push(here)) == Some(WaveError::FmtTooSmall));
                    lemma_fault_in_prefix(seen.push(here), chunks_from(bytes@, next));
                }
                return Err(WaveError::FmtTooSmall);
            }
            let audio_format: u16 = le_u16(&chunk[0..2]);
            assert(audio_format == le16(chunk@, 0)) by {
                lemma_le16_at(chunk@, 0);
            }
            if audio_format != 1 {
                proof {
                    assert(first_fault(seen.push(here)) == Some(WaveError::NotPcm));
                    lemma_fault_in_prefix(seen.push(here), chunks_from(bytes@, next));
                }
                return Err(WaveError::NotPcm);
            }
            let found = read_fmt(chunk);
            fmt = Some(found);
        } else if tag_at(bytes, start, data_id) {
            data = Some(copy_of(chunk));
        }
        proof {
            seen = seen.push(here);
        }
        cursor = cursor + clamped_chunk_len;
        if clamped_chunk_len % 2 != 0 && cursor < bytes.len() {
            cursor = cursor + 1;
        }
    }
    assert(chunks_from(bytes@, cursor as int) =~= Seq::empty());
    assert(chunks_from(bytes@, 12) =~= seen);
    match fmt {
        None => Err(WaveError::MissingFmt),
        Some(mut wave) => match data {
            None => Err(WaveError::MissingData),
            Some(samples) => {
                wave.data = samples;
                Ok(wave)
            },
        },
    }
}

/// Reads the format fields of a `fmt ` chunk; the sample bytes are left empty.
fn read_fmt(chunk: &[u8]) -> (wave: ParsedPcmWave)
    requires
        chunk@.len() >= 16,
    ensures
        wave@ == wave_of(chunk@, Seq::empty()),
{
    let wave = ParsedPcmWave {
        channels: le_u16(&chunk[2..4]),
        sample_rate: le_u32(&chunk[4..8]),
        byte_rate: le_u32(&chunk[8..12]),
        block_align: le_u16(&chunk[12..14]),
        bits_per_sample: le_u16(&chunk[14..16]),
        data: Vec::new(),
    };
    proof {
        lemma_le16_at(chunk@, 2);
        lemma_le32_at(chunk@, 4);
        lemma_le32_at(chunk@, 8);
        lemma_le16_at(chunk@, 12);
        lemma_le16_at(chunk@, 14);
    }
    wave
}

/// How a captured payload fails to be the reference.
#[derive(Debug, Clone, Copy, PartialEq, Eq)]
pub enum PayloadMismatch {
    Length { captured: usize, reference: usize },
    Bytes,
}

/// Compares a captured payload with the samples of the reference.
pub fn compare_pcm_payload(reference: &ParsedPcmWave, output_payload: &[u8]) -> (result: Result<
    (),
    PayloadMismatch,
>)
    ensures
        result is Ok <==> output_payload@ == reference@.data,
        match result {
            Ok(_) => true,
            Err(PayloadMismatch::Length { captured, reference: expected }) => captured
                == output_payload@.len() && expected == reference@.data.len() && captured
                != expected,
            Err(PayloadMismatch::Bytes) => output_payload@.len() == reference@.data.len(),
        },
{
    if output_payload.len() != reference.data.len() {
        return Err(
            PayloadMismatch::Length {
                captured: output_payload.len(),
                reference: reference.data.len(),
            },
        );
    }
    if !same_bytes(output_payload, reference.data.as_slice()) {
        return Err(PayloadMismatch::Bytes);
    }
    Ok(())
}

/// The bytes of a chunk: name, length, body, and a padding byte after a body
/// of odd length.
pub open spec fn chunk_bytes(chunk: Chunk) -> Seq<u8> {
    chunk.id + le32_bytes(chunk.body.len() as u32) + chunk.body + (if chunk.body.len() % 2 == 1 {
        seq![0u8]
    } else {
        Seq::empty()
    })
}

/// The bytes of chunks that stand one behind the other.
pub open spec fn chunks_bytes(chunks: Seq<Chunk>) -> Seq<u8>
    decreases chunks.len(),
{
    if chunks.len() == 0 {
        Seq::empty()
    } else {
        chunk_bytes(chunks[0]) + chunks_bytes(chunks.drop_first())
    }
}

/// Whether the length field of a chunk says where the chunk behind it starts:
/// a length of zero does so only where none follows.
pub open spec fn sized_chunk(chunks: Seq<Chunk>, at: int) -> bool {
    &&& chunks[at].id.len() == 4
    &&& chunks[at].body.len() <= u32::MAX
    &&& chunks[at].body.len() > 0 || at == chunks.len() - 1
}

/// The first twelve bytes of a wave file; `size` is not looked at.
pub open spec fn wave_header(size: u32) -> Seq<u8> {
    riff_tag() + le32_bytes(size) + wave_tag()
}

/// The body of the `fmt ` chunk of a PCM wave file.
pub open spec fn fmt_body(wave: PcmWave) -> Seq<u8> {
    le16_bytes(1) + le16_bytes(wave.channels) + le32_bytes(wave.sample_rate) + le32_bytes(
        wave.byte_rate,
    ) + le16_bytes(wave.block_align) + le16_bytes(wave.bits_per_sample)
}

/// The bytes of a PCM wave file: its format, then its samples.
pub open spec fn wave_file(wave: PcmWave, size: u32) -> Seq<u8> {
    wave_header(size) + chunks_bytes(
        seq![
            Chunk { id: fmt_tag(), body: fmt_body(wave) },
            Chunk { id: data_tag(), body: wave.data },
        ],
    )
}

/// Chunks that were written one behind the other are read back in order. Only
/// the last one may have an empty body: a length of zero says that a chunk
/// runs to the end.
pub proof fn law_chunks_read_back(before: Seq<u8>, chunks: Seq<Chunk>)
    requires
        forall|i: int| 0 <= i < chunks.len() ==> #[trigger] sized_chunk(chunks, i),
    ensures
        chunks_from(before + chunks_bytes(chunks), before.len() as int) == chunks,
    decreases chunks.len(),
{
    let bytes = before + chunks_bytes(chunks);
    let at = before.len() as int;
    if chunks.len() > 0 {
        let first = chunks[0];
        assert(sized_chunk(chunks, 0));
        let rest = chunks.drop_first();
        assert forall|i: int| 0 <= i < rest.len() implies #[trigger] sized_chunk(rest, i) by {
            assert(sized_chunk(chunks, i + 1));
        }
        let len = first.body.len() as int;
        let head = chunk_bytes(first);
        let size = le32_bytes(first.body.len() as u32);
        assert(size.len() == 4);
        assert(head.len() == 8 + len + len % 2);
        assert(bytes =~= (before + head) + chunks_bytes(rest));
        assert(bytes.subrange(at + 4, at + 8) =~= size);
        lemma_le32_at(bytes, at + 4);
        law_le32_round_trip(first.body.len() as u32);
        assert(body_len(bytes, at) == len);
        assert(bytes.subrange(at, at + 4) =~= first.id);
        assert(bytes.subrange(at + 8, at + 8 + len) =~= first.body);
        law_chunks_read_back(before + head, rest);
        assert((before + head).len() == at + 8 + len + len % 2);
        assert(chunks_from(bytes, at) =~= seq![first] + rest);
        assert(seq![first] + rest =~= chunks);
    }
}

/// The body of a `fmt ` chunk gives back the fields that were written to it.
proof fn lemma_fmt_body(wave: PcmWave)
    ensures
        fmt_body(wave).len() == 16,
        fmt_fault(fmt_body(wave)) is None,
        wave_of(fmt_body(wave), wave.data) == wave,
{
    let body = fmt_body(wave);
    assert(le16(body, 0) == 1u16) by {
        assert(body.subrange(0, 2) =~= le16_bytes(1u16));
        lemma_le16_at(body, 0);
        law_le16_round_trip(1u16);
    }
    assert(le16(body, 2) == wave.channels) by {
        assert(body.subrange(2, 4) =~= le16_bytes(wave.channels));
        lemma_le16_at(body, 2);
        law_le16_round_trip(wave.channels);
    }
    assert(le32(body, 4) == wave.sample_rate) by {
        assert(body.subrange(4, 8) =~= le32_bytes(wave.sample_rate));
        lemma_le32_at(body, 4);
        law_le32_round_trip(wave.sample_rate);
    }
    assert(le32(body, 8) == wave.byte_rate) by {
        assert(body.subrange(8, 12) =~= le32_bytes(wave.byte_rate));
        lemma_le32_at(body, 8);
        law_le32_round_trip(wave.byte_rate);
    }
    assert(le16(body, 12) == wave.block_align) by {
        assert(body.subrange(12, 14) =~= le16_bytes(wave.block_align));
        lemma_le16_at(body, 12);
        law_le16_round_trip(wave.block_align);
    }
    assert(le16(body, 14) == wave.bits_per_sample) by {
        assert(body.subrange(14, 16) =~= le16_bytes(wave.bits_per_sample));
        lemma_le16_at(body, 14);
        law_le16_round_trip(wave.bits_per_sample);
    }
}

/// A PCM wave file gives back the format fields and the samples that were
/// written to it, for as many samples as the length field can say.
pub proof fn law_wave_read_back(wave: PcmWave, size: u32)
    requires
        wave.data.len() <= u32::MAX,
    ensures
        wave_in(wave_file(wave, size)) == Ok::<PcmWave, WaveError>(wave),
{
    let fmt = Chunk { id: fmt_tag(), body: fmt_body(wave) };
    let data = Chunk { id: data_tag(), body: wave.data };
    let chunks = seq![fmt, data];
    let front = seq![fmt];
    lemma_fmt_body(wave);
    assert(sized_chunk(chunks, 0) && sized_chunk(chunks, 1));
    law_wave_of_chunks(size, chunks);
    assert(fmt_tag()[0] != data_tag()[0]);
    assert(chunks.drop_last() =~= front && chunks.last() == data);
    assert(front.drop_last() =~= Seq::empty() && front.last() == fmt);
    assert(first_fault(front) is None) by {
        assert(first_fault(Seq::<Chunk>::empty()) is None);
    }
    assert(first_fault(chunks) is None);
    assert(last_body(front, fmt_tag()) == Some(fmt_body(wave)));
    assert(last_body(chunks, fmt_tag()) == Some(fmt_body(wave)));
    assert(last_body(chunks, data_tag()) == Some(wave.data));
}

/// The name of a format chunk is `fmt` and a space, the name of a chunk of
/// samples is `data`; a wave file starts with `RIFF`, its size and `WAVE`.
pub proof fn law_names_of_chunks()
    ensures
        fmt_tag() == seq![0x66u8, 0x6d, 0x74, 0x20],
        data_tag() == seq![0x64u8, 0x61, 0x74, 0x61],
        riff_tag() == seq![0x52u8, 0x49, 0x46, 0x46],
        wave_tag() == seq![0x57u8, 0x41, 0x56, 0x45],
{
}

/// The last chunk with a name is the one that counts.
pub proof fn law_last_body(chunks: Seq<Chunk>, id: Seq<u8>)
    ensures
        match last_body(chunks, id) {
            Some(body) => exists|i: int|
                #![trigger chunks[i]]
                0 <= i < chunks.len() && chunks[i].id == id && chunks[i].body == body && forall|
                    j: int,
                |
                    i < j < chunks.len() ==> (#[trigger] chunks[j]).id != id,
            None => forall|i: int| 0 <= i < chunks.len() ==> (#[trigger] chunks[i]).id != id,
        },
    decreases chunks.len(),
{
    if chunks.len() > 0 {
        let front = chunks.drop_last();
        law_last_body(front, id);
        assert(forall|i: int| 0 <= i < front.len() ==> front[i] == #[trigger] chunks[i]);
        if chunks.last().id == id {
            assert(chunks[chunks.len() - 1].id == id);
        } else {
            match last_body(front, id) {
                Some(body) => {
                    let i = choose|i: int|
                        #![trigger front[i]]
                        0 <= i < front.len() && front[i].id == id && front[i].body == body
                            && forall|j: int| i < j < front.len() ==> (#[trigger] front[j]).id
                            != id;
                    assert(chunks[i].id == id && chunks[i].body == body);
                    assert forall|j: int| i < j < chunks.len() implies (#[trigger] chunks[j]).id
                        != id by {
                        if j < front.len() {
                            assert(front[j].id != id);
                        }
                    }
                },
                None => {
                    assert forall|j: int| 0 <= j < chunks.len() implies (#[trigger] chunks[j]).id
                        != id by {
                        if j < front.len() {
                            assert(front[j].id != id);
                        }
                    }
                },
            }
        }
    }
}

/// Whether a format chunk can be used: sixteen bytes at least, and format 1.
pub open spec fn usable_fmt(body: Seq<u8>) -> bool {
    body.len() >= 16 && body[0] == 1 && body[1] == 0
}

/// The first format chunk that cannot be used decides what is wrong: it is
/// too small, or else it is not PCM. Other chunks are never wrong.
pub proof fn law_first_fault(chunks: Seq<Chunk>)
    ensures
        match first_fault(chunks) {
            None => forall|i: int|
                0 <= i < chunks.len() && (#[trigger] chunks[i]).id == fmt_tag() ==> usable_fmt(
                    chunks[i].body,
                ),
            Some(error) => exists|i: int|
                #![trigger chunks[i]]
                {
                    &&& 0 <= i < chunks.len()
                    &&& chunks[i].id == fmt_tag()
                    &&& !usable_fmt(chunks[i].body)
                    &&& error == (if chunks[i].body.len() < 16 {
                        WaveError::FmtTooSmall
                    } else {
                        WaveError::NotPcm
                    })
                    &&& forall|j: int|
                        0 <= j < i && (#[trigger] chunks[j]).id == fmt_tag() ==> usable_fmt(
                            chunks[j].body,
                        )
                },
        },
    decreases chunks.len(),
{
    if chunks.len() > 0 {
        let front = chunks.drop_last();
        law_first_fault(front);
        assert(forall|i: int| 0 <= i < front.len() ==> front[i] == #[trigger] chunks[i]);
        match first_fault(front) {
            Some(error) => {
                let i = choose|i: int|
                    #![trigger front[i]]
                    {
                        &&& 0 <= i < front.len()
                        &&& front[i].id == fmt_tag()
                        &&& !usable_fmt(front[i].body)
                        &&& error == (if front[i].body.len() < 16 {
                            WaveError::FmtTooSmall
                        } else {
                            WaveError::NotPcm
                        })
                        &&& forall|j: int|
                            0 <= j < i && (#[trigger] front[j]).id == fmt_tag() ==> usable_fmt(
                                front[j].body,
                            )
                    };
                assert(chunks[i] == front[i]);
                assert forall|j: int| 0 <= j < i && (#[trigger] chunks[j]).id == fmt_tag() implies usable_fmt(
                    chunks[j].body,
                ) by {
                    assert(front[j].id == fmt_tag());
                }
            },
            None => {
                assert forall|j: int|
                    0 <= j < front.len() && (#[trigger] chunks[j]).id == fmt_tag() implies usable_fmt(
                    chunks[j].body,
                ) by {
                    assert(front[j].id == fmt_tag());
                }
                let last = chunks[chunks.len() - 1];
                assert(last == chunks.last());
            },
        }
    }
}

/// A chunk that holds neither format nor samples changes nothing, wherever it
/// is put in.
proof fn lemma_other_chunk(before: Seq<Chunk>, other: Chunk, after: Seq<Chunk>)
    requires
        other.id != fmt_tag(),
        other.id != data_tag(),
    ensures
        first_fault(before.push(other) + after) == first_fault(before + after),
        last_body(before.push(other) + after, fmt_tag()) == last_body(before + after, fmt_tag()),
        last_body(before.push(other) + after, data_tag()) == last_body(before + after, data_tag()),
    decreases after.len(),
{
    if after.len() == 0 {
        assert(before.push(other) + after =~= before.push(other));
        assert(before + after =~= before);
        assert(before.push(other).drop_last() =~= before);
    } else {
        lemma_other_chunk(before, other, after.drop_last());
        assert((before.push(other) + after).drop_last() =~= before.push(other)
            + after.drop_last());
        assert((before + after).drop_last() =~= before + after.drop_last());
    }
}

/// Chunks that are named neither `fmt ` nor `data` may be put in or taken out
/// anywhere: what is read of the file stays the same.
pub proof fn law_other_chunks_ignored(
    size: u32,
    before: Seq<Chunk>,
    other: Chunk,
    after: Seq<Chunk>,
)
    requires
        other.id != seq![0x66u8, 0x6d, 0x74, 0x20],
        other.id != seq![0x64u8, 0x61, 0x74, 0x61],
        forall|i: int|
            0 <= i < (before.push(other) + after).len() ==> #[trigger] sized_chunk(
                before.push(other) + after,
                i,
            ),
        forall|i: int|
            0 <= i < (before + after).len() ==> #[trigger] sized_chunk(before + after, i),
    ensures
        wave_in(wave_header(size) + chunks_bytes(before.push(other) + after)) == wave_in(
            wave_header(size) + chunks_bytes(before + after),
        ),
{
    law_names_of_chunks();
    law_wave_of_chunks(size, before.push(other) + after);
    law_wave_of_chunks(size, before + after);
    lemma_other_chunk(before, other, after);
}

/// What is read of a file that holds these chunks: format and samples come
/// from the last chunk of each name.
pub proof fn law_wave_of_chunks(size: u32, chunks: Seq<Chunk>)
    requires
        forall|i: int| 0 <= i < chunks.len() ==> #[trigger] sized_chunk(chunks, i),
    ensures
        wave_in(wave_header(size) + chunks_bytes(chunks)) == (if first_fault(chunks) is Some {
            Err::<PcmWave, WaveError>(first_fault(chunks)->0)
        } else if last_body(chunks, fmt_tag()) is None {
            Err(WaveError::MissingFmt)
        } else if last_body(chunks, data_tag()) is None {
            Err(WaveError::MissingData)
        } else {
            Ok(wave_of(last_body(chunks, fmt_tag())->0, last_body(chunks, data_tag())->0))
        }),
{
    let header = wave_header(size);
    let bytes = header + chunks_bytes(chunks);
    assert(header.len() == 12);
    law_chunks_read_back(header, chunks);
    assert(bytes.subrange(0, 4) =~= riff_tag());
    assert(bytes.subrange(8, 12) =~= wave_tag());
}

/// Whatever stands in front of, between and behind them, the samples that are
/// read are the body of the chunk named `data`, and the format is that of the
/// chunk named `fmt `, if there is one of each.
pub proof fn law_samples_are_the_data_chunk(
    size: u32,
    chunks: Seq<Chunk>,
    fmt: int,
    data: int,
)
    requires
        forall|i: int| 0 <= i < chunks.len() ==> #[trigger] sized_chunk(chunks, i),
        0 <= fmt < chunks.len(),
        0 <= data < chunks.len(),
        chunks[fmt].id == seq![0x66u8, 0x6d, 0x74, 0x20],
        chunks[data].id == seq![0x64u8, 0x61, 0x74, 0x61],
        forall|i: int|
            0 <= i < chunks.len() && i != fmt ==> (#[trigger] chunks[i]).id != chunks[fmt].id,
        forall|i: int|
            0 <= i < chunks.len() && i != data ==> (#[trigger] chunks[i]).id != chunks[data].id,
        usable_fmt(chunks[fmt].body),
    ensures
        wave_in(wave_header(size) + chunks_bytes(chunks)) is Ok,
        wave_in(wave_header(size) + chunks_bytes(chunks))->Ok_0.data == chunks[data].body,
        le16_bytes(wave_in(wave_header(size) + chunks_bytes(chunks))->Ok_0.channels)
            == chunks[fmt].body.subrange(2, 4),
        le32_bytes(wave_in(wave_header(size) + chunks_bytes(chunks))->Ok_0.sample_rate)
            == chunks[fmt].body.subrange(4, 8),
        le32_bytes(wave_in(wave_header(size) + chunks_bytes(chunks))->Ok_0.byte_rate)
            == chunks[fmt].body.subrange(8, 12),
        le16_bytes(wave_in(wave_header(size) + chunks_bytes(chunks))->Ok_0.block_align)
            == chunks[fmt].body.subrange(12, 14),
        le16_bytes(wave_in(wave_header(size) + chunks_bytes(chunks))->Ok_0.bits_per_sample)
            == chunks[fmt].body.subrange(14, 16),
{
    law_names_of_chunks();
    law_wave_of_chunks(size, chunks);
    law_first_fault(chunks);
    law_last_body(chunks, fmt_tag());
    law_last_body(chunks, data_tag());
    assert(chunks[fmt].id == fmt_tag() && chunks[data].id == data_tag());
    let body = chunks[fmt].body;
    lemma_le16_fields(body, 2);
    lemma_le16_fields(body, 12);
    lemma_le16_fields(body, 14);
    lemma_le32_fields(body, 4);
    lemma_le32_fields(body, 8);
}

proof fn lemma_le16_fields(body: Seq<u8>, at: int)
    requires
        0 <= at,
        at + 2 <= body.len(),
    ensures
        0 <= le16(body, at) <= u16::MAX,
        le16_bytes(le16(body, at) as u16) == body.subrange(at, at + 2),
{
    assert(le16_bytes(le16(body, at) as u16) =~= body.subrange(at, at + 2));
}

proof fn lemma_le32_fields(body: Seq<u8>, at: int)
    requires
        0 <= at,
        at + 4 <= body.len(),
    ensures
        0 <= le32(body, at) <= u32::MAX,
        le32_bytes(le32(body, at) as u32) == body.subrange(at, at + 4),
{
    let value = le32(body, at) as u32;
    let low = le16(body, at);
    let high = le16(body, at + 2);
    assert(0 <= low < 0x1_0000 && 0 <= high < 0x1_0000);
    assert(value % 0x1_0000 == low && value / 0x1_0000 == high) by (nonlinear_arith)
        requires
            value == low + 0x1_0000 * high,
            0 <= low < 0x1_0000,
            0 <= high < 0x1_0000,
    ;
    assert(le32_bytes(value) =~= body.subrange(at, at + 4));
}

/// A file is refused for its first twelve bytes exactly if they are too few,
/// do not start with `RIFF`, or do not end with `WAVE`.
pub proof fn law_wave_header_checked(bytes: Seq<u8>)
    ensures
        wave_in(bytes) == Err::<PcmWave, WaveError>(WaveError::TooSmall) <==> bytes.len() < 12,
        wave_in(bytes) == Err::<PcmWave, WaveError>(WaveError::MissingRiff) <==> bytes.len() >= 12
            && !(bytes[0] == 0x52 && bytes[1] == 0x49 && bytes[2] == 0x46 && bytes[3] == 0x46),
        wave_in(bytes) == Err::<PcmWave, WaveError>(WaveError::MissingWave) <==> bytes.len() >= 12
            && bytes[0] == 0x52 && bytes[1] == 0x49 && bytes[2] == 0x46 && bytes[3] == 0x46 && !(
        bytes[8] == 0x57 && bytes[9] == 0x41 && bytes[10] == 0x56 && bytes[11] == 0x45),
{
    law_names_of_chunks();
    law_first_fault(chunks_from(bytes, 12));
    if bytes.len() >= 12 {
        let riff = bytes.subrange(0, 4);
        let wave = bytes.subrange(8, 12);
        assert(riff[0] == bytes[0] && riff[1] == bytes[1] && riff[2] == bytes[2] && riff[3]
            == bytes[3]);
        assert(wave[0] == bytes[8] && wave[1] == bytes[9] && wave[2] == bytes[10] && wave[3]
            == bytes[11]);
        if bytes[0] == 0x52 && bytes[1] == 0x49 && bytes[2] == 0x46 && bytes[3] == 0x46 {
            assert(riff =~= riff_tag());
        }
        if bytes[8] == 0x57 && bytes[9] == 0x41 && bytes[10] == 0x56 && bytes[11] == 0x45 {
            assert(wave =~= wave_tag());
        }
    }
}

/// A chunk whose length field is zero, or says more than is left, holds all
/// that is left; any other holds as many bytes as it says. The chunk behind it
/// starts at an even distance.
pub proof fn law_chunk_extent(front: Seq<u8>, id: Seq<u8>, declared: u32, rest: Seq<u8>)
    requires
        id.len() == 4,
    ensures
        ({
            let bytes = front + id + le32_bytes(declared) + rest;
            let at = front.len() as int;
            let len = if declared == 0 || declared > rest.len() {
                rest.len() as int
            } else {
                declared as int
            };
            &&& chunks_from(bytes, at).len() > 0
            &&& chunks_from(bytes, at)[0] == (Chunk { id, body: rest.take(len) })
            &&& chunks_from(bytes, at).drop_first() == chunks_from(bytes, at + 8 + len + len % 2)
        }),
{
    let bytes = front + id + le32_bytes(declared) + rest;
    let at = front.len() as int;
    let len = if declared == 0 || declared > rest.len() {
        rest.len() as int
    } else {
        declared as int
    };
    let size = le32_bytes(declared);
    assert(size.len() == 4);
    assert(bytes.subrange(at + 4, at + 8) =~= size);
    lemma_le32_at(bytes, at + 4);
    law_le32_round_trip(declared);
    assert(bytes.subrange(at, at + 4) =~= id);
    assert(bytes.subrange(at + 8, at + 8 + len) =~= rest.take(len));
    let first = Chunk { id, body: rest.take(len) };
    let behind = chunks_from(bytes, at + 8 + len + len % 2);
    assert(chunks_from(bytes, at) == seq![first] + behind);
    assert((seq![first] + behind).drop_first() =~= behind);
}

} // verus!
