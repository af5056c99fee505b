//! Local audio player logic: WAV and MP3 header probes, the track list,
//! selection and playback decisions, progress and the Music screen
//! snapshot, and PCM volume scaling.
//!
//! File access, the decoder and the I2S output run outside the library; the
//! WAV probe asks for the bytes it needs one read at a time.

use vstd::prelude::*;
use crate::text::{dec, dec2, push_dec, push_dec2, push_str, str_chars, string_from_range, ascii_upper};

verus! {

/// Bytes read from the start of an MP3 file for its probe.
pub const MAX_AUDIO_PROBE_BYTES: usize = 768;

/// Format of an audio file.
#[derive(Clone, Copy, Debug, PartialEq, Eq, Structural)]
pub enum AudioKind {
    Wav,
    Mp3,
}

/// What a WAV header says.
#[derive(Clone, Copy, Debug)]
pub struct WavProbe {
    pub channels: u16,
    pub sample_rate: u32,
    pub bits_per_sample: u16,
    pub audio_format: u16,
    pub data_bytes: u32,
    pub data_offset: u64,
}

/// What the first MPEG frame header says.
#[derive(Clone, Copy, Debug)]
pub struct Mp3Probe {
    pub id3: bool,
    pub frame_sync: bool,
    pub sample_rate: u32,
    pub layer: &'static str,
    pub version: &'static str,
}

/// Little-endian 16-bit value of two bytes.
pub open spec fn le16(b0: u8, b1: u8) -> u16 {
    (b0 + 256 * b1) as u16
}

/// Little-endian 32-bit value of four bytes.
pub open spec fn le32(b0: u8, b1: u8, b2: u8, b3: u8) -> u32 {
    (b0 + 256 * b1 + 65536 * b2 + 16777216 * b3) as u32
}

/// Little-endian 16-bit value at the start of `bytes`.
pub fn le_u16(bytes: &[u8]) -> (r: u16)
    requires
        bytes@.len() >= 2,
    ensures
        r == le16(bytes@[0], bytes@[1]),
{
    let b0 = bytes[0];
    let b1 = bytes[1];
    let r = (b0 as u16) | ((b1 as u16) << 8);
    assert((b0 as u16) | ((b1 as u16) << 8u16) == b0 as u16 + 256 * (b1 as u16)) by (bit_vector);
    r
}

/// Little-endian 32-bit value at the start of `bytes`.
pub fn le_u32(bytes: &[u8]) -> (r: u32)
    requires
        bytes@.len() >= 4,
    ensures
        r == le32(bytes@[0], bytes@[1], bytes@[2], bytes@[3]),
{
    let b0 = bytes[0];
    let b1 = bytes[1];
    let b2 = bytes[2];
    let b3 = bytes[3];
    let r = (b0 as u32) | ((b1 as u32) << 8) | ((b2 as u32) << 16) | ((b3 as u32) << 24);
    assert((b0 as u32) | ((b1 as u32) << 8u32) | ((b2 as u32) << 16u32) | ((b3 as u32) << 24u32)
        == b0 as u32 + 256 * (b1 as u32) + 65536 * (b2 as u32) + 16777216 * (b3 as u32))
        by (bit_vector);
    r
}

/// MPEG sample rate for the version bits and rate index of a frame
/// header; 0 for reserved values.
pub open spec fn sample_rate_spec(version_bits: u32, idx: u32) -> u32 {
    if idx >= 3 {
        0
    } else if version_bits == 3 {
        if idx == 0 {
            44_100
        } else if idx == 1 {
            48_000
        } else {
            32_000
        }
    } else if version_bits == 2 {
        if idx == 0 {
            22_050
        } else if idx == 1 {
            24_000
        } else {
            16_000
        }
    } else if version_bits == 0 {
        if idx == 0 {
            11_025
        } else if idx == 1 {
            12_000
        } else {
            8_000
        }
    } else {
        0
    }
}

/// The MPEG sample-rate table (ISO 11172-3 / 13818-3): for MPEG-1
/// (version bits 3) the rate indices 0, 1, 2 give three distinct rates,
/// 48 kHz above 44.1 kHz above 32 kHz, so index 1 is 48 kHz, index 0
/// 44.1 kHz and index 2 32 kHz; MPEG-2 (bits 2) halves and MPEG-2.5 (bits 0)
/// quarters each of them; the reserved version (bits 1) and the reserved
/// index 3 give no rate.
pub proof fn lemma_mpeg_sample_rates(version_bits: u32, idx: u32)
    ensures
        idx < 3 ==> sample_rate_spec(3, idx) == 2 * sample_rate_spec(2, idx),
        idx < 3 ==> sample_rate_spec(3, idx) == 4 * sample_rate_spec(0, idx),
        sample_rate_spec(3, 1) > sample_rate_spec(3, 0) > sample_rate_spec(3, 2),
        forall|i: u32| #![trigger sample_rate_spec(3, i)] i < 3 ==> (sample_rate_spec(3, i) == 32_000
            || sample_rate_spec(3, i) == 44_100 || sample_rate_spec(3, i) == 48_000),
        (idx >= 3 || version_bits == 1 || version_bits > 3) ==> sample_rate_spec(version_bits, idx) == 0,
        (idx < 3 && version_bits != 1 && version_bits <= 3) ==> sample_rate_spec(version_bits, idx) > 0,
{
}

/// MPEG sample rate for the version bits and rate index of a frame header.
pub fn sample_rate_from_bits(version_bits: u32, idx: u32) -> (r: u32)
    ensures
        r == sample_rate_spec(version_bits, idx),
{
    if idx >= 3 {
        return 0;
    }
    if version_bits == 3 {
        if idx == 0 {
            44_100
        } else if idx == 1 {
            48_000
        } else {
            32_000
        }
    } else if version_bits == 2 {
        if idx == 0 {
            22_050
        } else if idx == 1 {
            24_000
        } else {
            16_000
        }
    } else if version_bits == 0 {
        if idx == 0 {
            11_025
        } else if idx == 1 {
            12_000
        } else {
            8_000
        }
    } else {
        0
    }
}

/// Whether an MPEG frame sync starts at `i`: `0xFF` then three high bits.
pub open spec fn sync_at(b: Seq<u8>, i: int) -> bool {
    b[i] == 0xff && b[i + 1] / 32 == 7
}

/// The first frame sync in `b` at or after `i` and before `end`.
pub open spec fn first_sync(b: Seq<u8>, i: int, end: int) -> Option<int>
    decreases end - i,
{
    if i >= end {
        None
    } else if sync_at(b, i) {
        Some(i)
    } else {
        first_sync(b, i + 1, end)
    }
}

/// The ID3v2 tag size: four 7-bit "sync-safe" bytes.
pub open spec fn id3_size(b: Seq<u8>) -> int {
    (b[6] % 128) * 2097152 + (b[7] % 128) * 16384 + (b[8] % 128) * 128 + (b[9] % 128)
}

/// Version name of the version bits.
pub open spec fn mpeg_version_name(v: int) -> Seq<char> {
    if v == 0 {
        "MPEG2.5"@
    } else if v == 2 {
        "MPEG2"@
    } else if v == 3 {
        "MPEG1"@
    } else {
        "RESERVED"@
    }
}

/// Layer name of the layer bits.
pub open spec fn mpeg_layer_name(l: int) -> Seq<char> {
    if l == 1 {
        "LayerIII"@
    } else if l == 2 {
        "LayerII"@
    } else if l == 3 {
        "LayerI"@
    } else {
        "RESERVED"@
    }
}

/// Whether the probe of the bytes `b` read from an MP3 file found an ID3
/// tag.
pub open spec fn mp3_has_id3(b: Seq<u8>) -> bool {
    b.len() >= 10 && b[0] == 0x49 && b[1] == 0x44 && b[2] == 0x33
}

/// Where the frame search starts: after the ID3 tag, unless that is at or
/// past the last four bytes read.
pub open spec fn mp3_search_start(b: Seq<u8>) -> int {
    let start = if mp3_has_id3(b) {
        10 + id3_size(b)
    } else {
        0
    };
    if start >= b.len() - 4 {
        0
    } else {
        start
    }
}

/// The probe result of the first bytes `b` of an MP3 file: too short, or
/// the ID3 flag and the first frame header found after the tag.
pub open spec fn mp3_probe_ok(b: Seq<u8>, r: Mp3Probe) -> bool {
    &&& r.id3 == mp3_has_id3(b)
    &&& match first_sync(b, mp3_search_start(b), b.len() - 3) {
        None => !r.frame_sync && r.sample_rate == 0 && r.layer@ == "UNKNOWN"@ && r.version@
            == "UNKNOWN"@,
        Some(i) => {
            &&& r.frame_sync
            &&& r.version@ == mpeg_version_name(((b[i + 1] / 8) % 4) as int)
            &&& r.layer@ == mpeg_layer_name(((b[i + 1] / 2) % 4) as int)
            &&& r.sample_rate == sample_rate_spec(((b[i + 1] / 8) % 4) as u32, ((b[i + 2] / 4) % 4) as u32)
        },
    }
}

/// Probes the first bytes read from an MP3 file (at most 768).
pub fn probe_mp3(buf: &[u8]) -> (r: Result<Mp3Probe, &'static str>)
    ensures
        buf@.len() < 4 ==> (r matches Err(e) && e@ == "HEADER_TOO_SMALL"@),
        buf@.len() >= 4 ==> (r matches Ok(p) && mp3_probe_ok(buf@, p)),
{
    let n = buf.len();
    if n < 4 {
        return Err("HEADER_TOO_SMALL");
    }
    let has_id3 = n >= 10 && buf[0] == 0x49 && buf[1] == 0x44 && buf[2] == 0x33;
    let mut start: usize = if has_id3 {
        let b6 = buf[6];
        let b7 = buf[7];
        let b8 = buf[8];
        let b9 = buf[9];
        let size: usize = (((b6 & 0x7f) as usize) << 21) | (((b7 & 0x7f) as usize) << 14) | (((
        b8 & 0x7f) as usize) << 7) | ((b9 & 0x7f) as usize);
        assert(size == (b6 % 128) as usize * 2097152 + (b7 % 128) as usize * 16384 + (b8 % 128) as usize
            * 128 + (b9 % 128) as usize) by (bit_vector)
            requires
                size == (((b6 & 0x7f) as usize) << 21) | (((b7 & 0x7f) as usize) << 14) | (((b8
                    & 0x7f) as usize) << 7) | ((b9 & 0x7f) as usize),
        ;
        10 + size
    } else {
        0
    };
    if start >= n - 4 {
        start = 0;
    }
    let end = n - 3;
    let mut i = start;
    while i < end
        invariant
            n == buf@.len(),
            n >= 4,
            end == n - 3,
            start == mp3_search_start(buf@),
            has_id3 == mp3_has_id3(buf@),
            start <= i,
            i <= end || start >= end,
            first_sync(buf@, start as int, end as int) == first_sync(buf@, i as int, end as int),
        decreases end - i,
    {
        let b0 = buf[i];
        let b1 = buf[i + 1];
        assert((b1 & 0xe0u8) == 0xe0u8 <==> b1 / 32 == 7) by (bit_vector);
        if b0 == 0xff && (b1 & 0xe0) == 0xe0 {
            let b2 = buf[i + 2];
            let version_bits: u32 = ((b1 >> 3) & 0x03) as u32;
            let layer_bits: u32 = ((b1 >> 1) & 0x03) as u32;
            let sample_rate_idx: u32 = ((b2 >> 2) & 0x03) as u32;
            assert(((b1 >> 3u8) & 3u8) == (b1 / 8) % 4) by (bit_vector);
            assert(((b1 >> 1u8) & 3u8) == (b1 / 2) % 4) by (bit_vector);
            assert(((b2 >> 2u8) & 3u8) == (b2 / 4) % 4) by (bit_vector);
            let version = if version_bits == 0 {
                "MPEG2.5"
            } else if version_bits == 2 {
                "MPEG2"
            } else if version_bits == 3 {
                "MPEG1"
            } else {
                "RESERVED"
            };
            let layer = if layer_bits == 1 {
                "LayerIII"
            } else if layer_bits == 2 {
                "LayerII"
            } else if layer_bits == 3 {
                "LayerI"
            } else {
                "RESERVED"
            };
            let sample_rate = sample_rate_from_bits(version_bits, sample_rate_idx);
            return Ok(Mp3Probe { id3: has_id3, frame_sync: true, sample_rate, layer, version });
        }
        i += 1;
    }
    Ok(Mp3Probe {
        id3: has_id3,
        frame_sync: false,
        sample_rate: 0,
        layer: "UNKNOWN",
        version: "UNKNOWN",
    })
}

/// Where a WAV probe stands.
#[derive(Clone, Copy, Debug, PartialEq, Eq, Structural)]
pub enum WavStage {
    /// Needs the 12-byte RIFF header at offset 0.
    Riff,
    /// Needs the 8-byte chunk header at `pos`.
    Chunk,
    /// Needs the first bytes of a `fmt ` chunk body.
    Fmt,
    /// Finished.
    Done,
}

/// A read the probe asks for.
#[derive(Clone, Copy, Debug, PartialEq, Eq, Structural)]
pub struct WavRead {
    pub offset: u64,
    pub len: usize,
}

/// A WAV header probe driven one read at a time, as the file is read with
/// exact reads and forward seeks: RIFF header, then chunk headers until the
/// `data` chunk or the end of the file, reading the start of each `fmt `
/// chunk body and skipping other chunks (with their pad byte).
#[derive(Clone, Copy, Debug)]
pub struct WavProber {
    pub stage: WavStage,
    pub pos: u64,
    pub chunk_len: u32,
    pub fmt: Option<(u16, u16, u32, u16)>,
    pub data_bytes: u32,
    pub data_offset: u64,
    pub result: Option<Result<WavProbe, &'static str>>,
}

/// Seek positions past this fail.
pub const MAX_SEEK_POS: u64 = 0x7fff_ffff_ffff_ffff;

/// The verdict once the chunk walk stops: a `fmt ` chunk is needed, in PCM
/// format 1, and a non-empty `data` chunk.
pub open spec fn wav_verdict(fmt: Option<(u16, u16, u32, u16)>, data_bytes: u32, data_offset: u64) -> Result<
    WavProbe,
    &'static str,
> {
    match fmt {
        None => Err("NO_FMT_CHUNK"),
        Some((audio_format, channels, sample_rate, bits)) => if audio_format != 1 {
            Err("NOT_PCM_FORMAT_1")
        } else if data_bytes == 0 {
            Err("NO_DATA_CHUNK")
        } else {
            Ok(
                WavProbe {
                    channels,
                    sample_rate,
                    bits_per_sample: bits,
                    audio_format,
                    data_bytes,
                    data_offset,
                },
            )
        },
    }
}

/// Same text and same fields.
pub open spec fn same_wav_result(a: Result<WavProbe, &'static str>, b: Result<WavProbe, &'static str>) -> bool {
    match (a, b) {
        (Ok(x), Ok(y)) => x == y,
        (Err(x), Err(y)) => x@ == y@,
        _ => false,
    }
}

/// Whether `b` spells the four-character tag `t`.
pub open spec fn tag_is(b: Seq<u8>, at: int, t: Seq<u8>) -> bool {
    b.subrange(at, at + 4) == t
}

fn bytes_eq4(b: &[u8], at: usize, t0: u8, t1: u8, t2: u8, t3: u8) -> (r: bool)
    requires
        at + 4 <= b@.len(),
    ensures
        r == tag_is(b@, at as int, seq![t0, t1, t2, t3]),
{
    let r = b[at] == t0 && b[at + 1] == t1 && b[at + 2] == t2 && b[at + 3] == t3;
    proof {
        let s = b@.subrange(at as int, at + 4);
        if r {
            assert(s =~= seq![t0, t1, t2, t3]);
        } else {
            assert(s != seq![t0, t1, t2, t3] || (s[0] != t0 || s[1] != t1 || s[2] != t2 || s[3]
                != t3));
        }
    }
    r
}

impl WavProber {
    /// The next read, or `None` once finished.
    pub open spec fn next_read_spec(&self) -> Option<WavRead> {
        match self.stage {
            WavStage::Riff => Some(WavRead { offset: 0, len: 12 }),
            WavStage::Chunk => Some(WavRead { offset: self.pos, len: 8 }),
            WavStage::Fmt => Some(
                WavRead {
                    offset: self.pos,
                    len: if self.chunk_len < 64 {
                        self.chunk_len as usize
                    } else {
                        64
                    },
                },
            ),
            WavStage::Done => None,
        }
    }

    /// Bookkeeping that every state keeps.
    pub open spec fn wf(&self) -> bool {
        &&& self.pos <= MAX_SEEK_POS + 8
        &&& self.stage == WavStage::Chunk ==> self.pos <= MAX_SEEK_POS
        &&& (self.stage == WavStage::Done <==> self.result is Some)
        &&& self.stage == WavStage::Fmt ==> self.chunk_len >= 16
    }

    /// A probe at the start of a file.
    pub fn new() -> (r: Self)
        ensures
            r.wf(),
            r == (WavProber {
                stage: WavStage::Riff,
                pos: 0,
                chunk_len: 0,
                fmt: None,
                data_bytes: 0,
                data_offset: 0,
                result: None,
            }),
    {
        WavProber {
            stage: WavStage::Riff,
            pos: 0,
            chunk_len: 0,
            fmt: None,
            data_bytes: 0,
            data_offset: 0,
            result: None,
        }
    }

    /// The next read the probe needs, or `None` once it has a result.
    pub fn next_read(&self) -> (r: Option<WavRead>)
        ensures
            r == self.next_read_spec(),
    {
        match self.stage {
            WavStage::Riff => Some(WavRead { offset: 0, len: 12 }),
            WavStage::Chunk => Some(WavRead { offset: self.pos, len: 8 }),
            WavStage::Fmt => Some(
                WavRead {
                    offset: self.pos,
                    len: if self.chunk_len < 64 {
                        self.chunk_len as usize
                    } else {
                        64
                    },
                },
            ),
            WavStage::Done => None,
        }
    }

    fn finish(&mut self, result: Result<WavProbe, &'static str>)
        ensures
            *final(self) == (WavProber {
                stage: WavStage::Done,
                result: Some(result),
                ..*old(self)
            }),
    {
        self.stage = WavStage::Done;
        self.result = Some(result);
    }

    /// Moves past a chunk body of `len` bytes starting at `body` (and its
    /// pad byte when `len` is odd) to the next chunk header; a position
    /// past the largest seek offset fails.
    fn skip_to_next_chunk(&mut self, body: u64, len: u32)
        requires
            body <= MAX_SEEK_POS + 8,
            old(self).pos <= MAX_SEEK_POS + 8,
            old(self).result is None,
        ensures
            ({
                let next = body + len + if len % 2 == 1 {
                    1int
                } else {
                    0int
                };
                if next > MAX_SEEK_POS {
                    *final(self) == WavProber {
                        stage: WavStage::Done,
                        result: Some(Err("SEEK_FAILED")),
                        ..*old(self)
                    }
                } else {
                    *final(self) == WavProber {
                        stage: WavStage::Chunk,
                        pos: next as u64,
                        ..*old(self)
                    }
                }
            }),
            final(self).wf(),
    {
        let pad: u64 = if len % 2 == 1 {
            1
        } else {
            0
        };
        if body > MAX_SEEK_POS || (len as u64) + pad > MAX_SEEK_POS - body {
            self.finish(Err("SEEK_FAILED"));
        } else {
            self.pos = body + (len as u64) + pad;
            self.stage = WavStage::Chunk;
        }
    }

    /// Feeds the bytes of the read asked for, or `None` when the file ended
    /// first (a short read).
    pub fn feed(&mut self, bytes: Option<&[u8]>)
        requires
            old(self).wf(),
            old(self).stage != WavStage::Done,
            bytes matches Some(b) ==> old(self).next_read_spec() matches Some(rd) && b@.len()
                == rd.len,
        ensures
            final(self).wf(),
            wav_fed(*old(self), *final(self), bytes),
    {
        match self.stage {
            WavStage::Riff => match bytes {
                None => self.finish(Err("HEADER_TOO_SMALL")),
                Some(b) => {
                    if !bytes_eq4(b, 0, 0x52, 0x49, 0x46, 0x46) || !bytes_eq4(
                        b,
                        8,
                        0x57,
                        0x41,
                        0x56,
                        0x45,
                    ) {
                        self.finish(Err("NOT_RIFF_WAVE"));
                    } else {
                        self.pos = 12;
                        self.stage = WavStage::Chunk;
                    }
                },
            },
            WavStage::Chunk => match bytes {
                None => {
                    let v = self.verdict();
                    self.finish(v);
                },
                Some(b) => {
                    let len = le_u32(&b[4..8]);
                    proof {
                        assert(b@.subrange(4, 8)[0] == b@[4]);
                    }
                    let body = self.pos + 8;
                    if bytes_eq4(b, 0, 0x66, 0x6d, 0x74, 0x20) {
                        if len < 16 {
                            self.finish(Err("BAD_FMT_CHUNK"));
                        } else {
                            self.chunk_len = len;
                            self.pos = body;
                            self.stage = WavStage::Fmt;
                        }
                    } else if bytes_eq4(b, 0, 0x64, 0x61, 0x74, 0x61) {
                        self.data_bytes = len;
                        self.data_offset = body;
                        let v = self.verdict();
                        self.finish(v);
                    } else {
                        self.skip_to_next_chunk(body, len);
                    }
                },
            },
            WavStage::Fmt => match bytes {
                None => self.finish(Err("READ_FAILED")),
                Some(b) => {
                    let audio_format = le_u16(&b[0..2]);
                    let channels = le_u16(&b[2..4]);
                    let sample_rate = le_u32(&b[4..8]);
                    let bits = le_u16(&b[14..16]);
                    self.fmt = Some((audio_format, channels, sample_rate, bits));
                    let body = self.pos;
                    let len = self.chunk_len;
                    self.skip_to_next_chunk(body, len);
                },
            },
            WavStage::Done => {},
        }
    }

    fn verdict(&self) -> (r: Result<WavProbe, &'static str>)
        ensures
            same_wav_result(r, wav_verdict(self.fmt, self.data_bytes, self.data_offset)),
    {
        match self.fmt {
            None => Err("NO_FMT_CHUNK"),
            Some((audio_format, channels, sample_rate, bits)) => {
                if audio_format != 1 {
                    Err("NOT_PCM_FORMAT_1")
                } else if self.data_bytes == 0 {
                    Err("NO_DATA_CHUNK")
                } else {
                    Ok(
                        WavProbe {
                            channels,
                            sample_rate,
                            bits_per_sample: bits,
                            audio_format,
                            data_bytes: self.data_bytes,
                            data_offset: self.data_offset,
                        },
                    )
                }
            },
        }
    }

    /// The result, once finished.
    pub fn result(&self) -> (r: Option<Result<WavProbe, &'static str>>)
        ensures
            r == self.result,
    {
        self.result
    }
}

/// The next position after a chunk body at `body` of `len` bytes.
pub open spec fn after_chunk(body: int, len: u32) -> int {
    body + len + if len % 2 == 1 {
        1int
    } else {
        0int
    }
}

/// The probe after skipping to `next`: the next chunk header, or a seek
/// failure past the largest offset.
pub open spec fn skipped_to(p: WavProber, q: WavProber, next: int) -> bool {
    if next > MAX_SEEK_POS {
        q.stage == WavStage::Done && (q.result matches Some(Err(e)) && e@ == "SEEK_FAILED"@)
    } else {
        q.stage == WavStage::Chunk && q.pos == next
    }
}

/// One step of the WAV probe.
pub open spec fn wav_fed(p: WavProber, q: WavProber, bytes: Option<&[u8]>) -> bool {
    match p.stage {
        WavStage::Riff => match bytes {
            None => q.stage == WavStage::Done && (q.result matches Some(Err(e)) && e@
                == "HEADER_TOO_SMALL"@),
            Some(b) => if tag_is(b@, 0, seq![0x52u8, 0x49, 0x46, 0x46]) && tag_is(
                b@,
                8,
                seq![0x57u8, 0x41, 0x56, 0x45],
            ) {
                q.stage == WavStage::Chunk && q.pos == 12 && q.fmt == p.fmt && q.data_bytes
                    == p.data_bytes
            } else {
                q.stage == WavStage::Done && (q.result matches Some(Err(e)) && e@
                    == "NOT_RIFF_WAVE"@)
            },
        },
        WavStage::Chunk => match bytes {
            None => q.stage == WavStage::Done && (q.result matches Some(r) && same_wav_result(
                r,
                wav_verdict(p.fmt, p.data_bytes, p.data_offset),
            )),
            Some(b) => {
                let len = le32(b@[4], b@[5], b@[6], b@[7]);
                let body = p.pos + 8;
                if tag_is(b@, 0, seq![0x66u8, 0x6d, 0x74, 0x20]) {
                    if len < 16 {
                        q.stage == WavStage::Done && (q.result matches Some(Err(e)) && e@
                            == "BAD_FMT_CHUNK"@)
                    } else {
                        q.stage == WavStage::Fmt && q.pos == body && q.chunk_len == len && q.fmt
                            == p.fmt && q.data_bytes == p.data_bytes
                    }
                } else if tag_is(b@, 0, seq![0x64u8, 0x61, 0x74, 0x61]) {
                    q.stage == WavStage::Done && (q.result matches Some(r) && same_wav_result(
                        r,
                        wav_verdict(p.fmt, len, body as u64),
                    ))
                } else {
                    skipped_to(p, q, after_chunk(body, len)) && q.fmt == p.fmt && q.data_bytes
                        == p.data_bytes
                }
            },
        },
        WavStage::Fmt => match bytes {
            None => q.stage == WavStage::Done && (q.result matches Some(Err(e)) && e@
                == "READ_FAILED"@),
            Some(b) => {
                &&& q.fmt == Some(
                    (
                        le16(b@[0], b@[1]),
                        le16(b@[2], b@[3]),
                        le32(b@[4], b@[5], b@[6], b@[7]),
                        le16(b@[14], b@[15]),
                    ),
                )
                &&& skipped_to(p, q, after_chunk(p.pos as int, p.chunk_len))
                &&& q.data_bytes == p.data_bytes
            },
        },
        WavStage::Done => q == p,
    }
}

/// Bytes of PCM per second: rate × channels × bits / 8, each product
/// saturating at `u32::MAX`.
pub open spec fn bytes_per_second_spec(w: WavProbe) -> u32 {
    let a: int = w.sample_rate * w.channels;
    let a_sat: int = if a > u32::MAX { u32::MAX as int } else { a };
    let b: int = a_sat * w.bits_per_sample;
    let b_sat: int = if b > u32::MAX { u32::MAX as int } else { b };
    (b_sat / 8) as u32
}

/// `u32::saturating_mul`.
fn sat_mul_u32(a: u32, b: u32) -> (r: u32)
    ensures
        r == (if a * b > u32::MAX {
            u32::MAX as int
        } else {
            a * b
        }),
{
    assert((a as u64) * (b as u64) <= 0xffff_fffe_0000_0001u64) by (nonlinear_arith)
        requires
            a <= 0xffff_ffffu32,
            b <= 0xffff_ffffu32,
    ;
    let p: u64 = (a as u64) * (b as u64);
    if p > u32::MAX as u64 {
        u32::MAX
    } else {
        p as u32
    }
}

/// Bytes of PCM per second of a WAV stream.
pub fn bytes_per_second(wav: &WavProbe) -> (r: u32)
    ensures
        r == bytes_per_second_spec(*wav),
{
    let a = sat_mul_u32(wav.sample_rate, wav.channels as u32);
    let b = sat_mul_u32(a, wav.bits_per_sample as u32);
    b / 8
}

/// Whether a WAV probe has every field needed for a duration.
pub open spec fn wav_timed(w: WavProbe) -> bool {
    w.sample_rate != 0 && w.channels != 0 && w.bits_per_sample != 0 && w.data_bytes != 0
        && bytes_per_second_spec(w) != 0
}

/// Whole seconds of PCM data in a WAV stream; 0 when unknown.
pub open spec fn wav_duration_spec(w: WavProbe) -> u32 {
    if wav_timed(w) {
        (w.data_bytes / bytes_per_second_spec(w)) as u32
    } else {
        0
    }
}

/// Whole seconds of PCM data in a WAV stream; 0 when unknown.
pub fn wav_duration_seconds(wav: &WavProbe) -> (r: u32)
    ensures
        r == wav_duration_spec(*wav),
{
    if wav.sample_rate == 0 || wav.channels == 0 || wav.bits_per_sample == 0 || wav.data_bytes
        == 0 {
        return 0;
    }
    let bps = bytes_per_second(wav);
    if bps == 0 {
        return 0;
    }
    wav.data_bytes / bps
}

/// `m:ss`.
pub open spec fn mmss_spec(seconds: u32) -> Seq<char> {
    dec((seconds / 60) as nat) + ":"@ + dec2((seconds % 60) as nat)
}

/// `m:ss`.
pub fn seconds_to_mmss(seconds: u32) -> (r: String)
    ensures
        r@ == mmss_spec(seconds),
{
    let mut s = String::new();
    push_dec(&mut s, (seconds / 60) as u64);
    push_str(&mut s, ":");
    push_dec2(&mut s, (seconds % 60) as u64);
    s
}

/// The duration text of a WAV stream: `m:ss`, or `--:--` when unknown.
pub fn wav_duration_label(wav: &WavProbe) -> (r: String)
    ensures
        r@ == (if wav_timed(*wav) {
            mmss_spec(wav_duration_spec(*wav))
        } else {
            "--:--"@
        }),
{
    if wav.sample_rate == 0 || wav.channels == 0 || wav.bits_per_sample == 0 || wav.data_bytes
        == 0 {
        return "--:--".to_owned();
    }
    let bps = bytes_per_second(wav);
    if bps == 0 {
        return "--:--".to_owned();
    }
    seconds_to_mmss(wav.data_bytes / bps)
}

/// What the PCM streamer accepts: PCM format 1, 16 bits, one or two
/// channels, 8 to 96 kHz, and some data.
pub open spec fn wav_stream_check_spec(w: WavProbe) -> Option<Seq<char>> {
    if w.audio_format != 1 {
        Some("NOT_PCM_FORMAT_1"@)
    } else if w.bits_per_sample != 16 {
        Some("ONLY_PCM16_SUPPORTED"@)
    } else if w.channels == 0 || w.channels > 2 {
        Some("CHANNELS_UNSUPPORTED"@)
    } else if w.sample_rate < 8000 || w.sample_rate > 96000 {
        Some("SAMPLE_RATE_UNSUPPORTED"@)
    } else if w.data_bytes == 0 {
        Some("NO_DATA_CHUNK"@)
    } else {
        None
    }
}

/// Whether the PCM streamer can play a WAV stream, or why not.
pub fn wav_stream_check(wav: &WavProbe) -> (r: Result<(), &'static str>)
    ensures
        match wav_stream_check_spec(*wav) {
            None => r is Ok,
            Some(e) => r matches Err(x) && x@ == e,
        },
{
    if wav.audio_format != 1 {
        return Err("NOT_PCM_FORMAT_1");
    }
    if wav.bits_per_sample != 16 {
        return Err("ONLY_PCM16_SUPPORTED");
    }
    if wav.channels == 0 || wav.channels > 2 {
        return Err("CHANNELS_UNSUPPORTED");
    }
    if wav.sample_rate < 8000 || wav.sample_rate > 96000 {
        return Err("SAMPLE_RATE_UNSUPPORTED");
    }
    if wav.data_bytes == 0 {
        return Err("NO_DATA_CHUNK");
    }
    Ok(())
}

/// The MP3 decoder needs a frame sync.
pub fn mp3_stream_check(mp3: &Mp3Probe) -> (r: Result<(), &'static str>)
    ensures
        mp3.frame_sync ==> r is Ok,
        !mp3.frame_sync ==> (r matches Err(x) && x@ == "NO_FRAME_SYNC"@),
{
    if !mp3.frame_sync {
        return Err("NO_FRAME_SYNC");
    }
    Ok(())
}

/// Progress of a WAV stream after `done` bytes: percent of the data (at
/// most 100) and whole seconds played.
pub open spec fn wav_progress_spec(done: u32, w: WavProbe) -> (u32, u32) {
    let total: u32 = if w.data_bytes > 1 { w.data_bytes } else { 1 };
    let scaled: int = if done * 100 > u32::MAX { u32::MAX as int } else { done * 100 };
    let pct: int = scaled / (total as int);
    let bps = bytes_per_second_spec(w);
    let clamped: u32 = if done < total { done } else { total };
    (
        if pct > 100 {
            100
        } else {
            pct as u32
        },
        if bps == 0 {
            0
        } else {
            (clamped / bps) as u32
        },
    )
}

/// Progress of a WAV stream after `done` bytes.
pub fn wav_progress(done: u32, wav: &WavProbe) -> (r: (u32, u32))
    ensures
        r == wav_progress_spec(done, *wav),
        r.0 <= 100,
{
    let total: u32 = if wav.data_bytes > 1 {
        wav.data_bytes
    } else {
        1
    };
    let pct = sat_mul_u32(done, 100) / total;
    let progress = if pct > 100 {
        100
    } else {
        pct
    };
    let bps = bytes_per_second(wav);
    let clamped = if done < total {
        done
    } else {
        total
    };
    let elapsed = if bps == 0 {
        0
    } else {
        clamped / bps
    };
    (progress, elapsed)
}

/// A 16-bit little-endian sample scaled by `volume` percent (values over
/// 100 count as 100), rounding toward zero.
pub open spec fn scaled_sample(s: i16, volume: u8) -> i16 {
    let v: int = if volume > 100 { 100 } else { volume as int };
    let x: int = s as int * v;
    (if x >= 0 {
        x / 100
    } else {
        -((-x) / 100)
    }) as i16
}

/// The `k`-th 16-bit little-endian sample of `b`.
pub open spec fn sample_at(b: Seq<u8>, k: int) -> i16 {
    le16(b[2 * k], b[2 * k + 1]) as i16
}

/// Scales the 16-bit little-endian samples of `buf` by `volume` percent; a
/// trailing odd byte is left alone, and at 100 % nothing changes.
pub fn scale_pcm16_in_place(buf: &mut Vec<u8>, volume: u8)
    ensures
        final(buf)@.len() == old(buf)@.len(),
        volume >= 100 ==> final(buf)@ == old(buf)@,
        forall|k: int|
            0 <= k < old(buf)@.len() / 2 ==> #[trigger] sample_at(final(buf)@, k) == if volume
                >= 100 {
                sample_at(old(buf)@, k)
            } else {
                scaled_sample(sample_at(old(buf)@, k), volume)
            },
        old(buf)@.len() % 2 == 1 ==> final(buf)@.last() == old(buf)@.last(),
{
    let vol: i32 = if volume > 100 {
        100
    } else {
        volume as i32
    };
    if vol >= 100 {
        return;
    }
    let ghost orig = buf@;
    let mut i: usize = 0;
    while i + 1 < buf.len()
        invariant
            buf@.len() == orig.len(),
            i % 2 == 0,
            i <= buf@.len(),
            0 <= vol < 100,
            vol == volume,
            forall|k: int|
                i <= k < orig.len() ==> buf@[k] == orig[k],
            forall|k: int|
                0 <= k < i / 2 ==> #[trigger] sample_at(buf@, k) == scaled_sample(
                    sample_at(orig, k),
                    volume,
                ),
        decreases buf.len() - i,
    {
        let b0 = buf[i];
        let b1 = buf[i + 1];
        let sample: i16 = (((b1 as u16) << 8) | (b0 as u16)) as i16;
        assert(sample == le16(b0, b1) as i16) by (bit_vector)
            requires
                sample == (((b1 as u16) << 8u16) | (b0 as u16)) as i16,
        ;
        assert(-3_276_800 <= sample as i32 * vol <= 3_276_700) by (nonlinear_arith)
            requires
                -32768 <= sample <= 32767,
                0 <= vol < 100,
        ;
        let x: i32 = sample as i32 * vol;
        let q: i32 = if x >= 0 {
            x / 100
        } else {
            -((-x) / 100)
        };
        let scaled: i16 = q as i16;
        let u: u16 = scaled as u16;
        let lo: u8 = (u & 0xff) as u8;
        let hi: u8 = (u >> 8) as u8;
        assert(le16(lo, hi) as i16 == scaled) by (bit_vector)
            requires
                u == scaled as u16,
                lo == (u & 0xff) as u8,
                hi == (u >> 8u16) as u8,
        ;
        let ghost before = buf@;
        buf.set(i, lo);
        buf.set(i + 1, hi);
        proof {
            assert forall|k: int| 0 <= k < (i + 2) / 2 implies #[trigger] sample_at(buf@, k)
                == scaled_sample(sample_at(orig, k), volume) by {
                if k < i / 2 {
                    assert(sample_at(buf@, k) == sample_at(before, k));
                } else {
                    assert(k == i / 2);
                    assert(2 * k == i);
                    assert(orig[2 * k] == b0 && orig[2 * k + 1] == b1);
                }
            }
        }
        i += 2;
    }
    proof {
        assert forall|k: int| 0 <= k < orig.len() / 2 implies #[trigger] sample_at(buf@, k)
            == scaled_sample(sample_at(orig, k), volume) by {
            assert(k < i / 2);
        }
    }
}

/// Names of the audio formats the player lists: `.wav` and `.mp3` in any
/// case.
pub open spec fn audio_kind_of_ext(ext: Seq<char>) -> Option<AudioKind> {
    let u = ascii_upper(ext);
    if u == "WAV"@ {
        Some(AudioKind::Wav)
    } else if u == "MP3"@ {
        Some(AudioKind::Mp3)
    } else {
        None
    }
}

/// The kind of an audio file by its extension.
pub fn audio_kind_from_extension(ext: &str) -> (r: Option<AudioKind>)
    ensures
        r == audio_kind_of_ext(ext@),
{
    let v = str_chars(ext);
    let n = v.len();
    let u = crate::text::upper_range(&v, 0, n);
    assert(v@.subrange(0, n as int) =~= v@);
    let m = u.len();
    assert(u@.subrange(0, m as int) =~= u@);
    if crate::text::range_eq_str(&u, 0, m, "WAV") {
        Some(AudioKind::Wav)
    } else if crate::text::range_eq_str(&u, 0, m, "MP3") {
        Some(AudioKind::Mp3)
    } else {
        None
    }
}

/// Monitor text of the player state for a track.
pub fn playback_status(kind: AudioKind, playing: bool) -> (r: &'static str)
    ensures
        r@ == (match (kind, playing) {
            (AudioKind::Wav, true) => "WAV PLAY"@,
            (AudioKind::Wav, false) => "WAV READY"@,
            (AudioKind::Mp3, true) => "MP3 PLAY"@,
            (AudioKind::Mp3, false) => "MP3 READY"@,
        }),
{
    match (kind, playing) {
        (AudioKind::Wav, true) => "WAV PLAY",
        (AudioKind::Wav, false) => "WAV READY",
        (AudioKind::Mp3, true) => "MP3 PLAY",
        (AudioKind::Mp3, false) => "MP3 READY",
    }
}

/// The first `max_chars` characters of `text`.
pub fn trim_label(text: &str, max_chars: usize) -> (r: String)
    ensures
        r@ == text@.take(if text@.len() < max_chars { text@.len() as int } else { max_chars as int }),
{
    crate::text::clip_chars(text, max_chars)
}

/// The stored selection if it is in range, else the first track (and the
/// stored selection must be reset).
pub open spec fn selected_index_spec(stored: u32, len: usize) -> usize {
    if len == 0 || stored as int >= len {
        0
    } else {
        stored as usize
    }
}

/// The selected track among `len`.
pub fn selected_index(stored: u32, len: usize) -> (r: usize)
    ensures
        r == selected_index_spec(stored, len),
        len > 0 ==> r < len,
{
    if len == 0 {
        return 0;
    }
    let idx = stored as usize;
    if idx >= len {
        0
    } else {
        idx
    }
}

/// The track after `current`, wrapping.
pub fn next_index(current: usize, len: usize) -> (r: usize)
    requires
        current < len,
    ensures
        r == (current + 1) % (len as int),
        r < len,
{
    if current + 1 == len {
        assert((current + 1) % (len as int) == 0) by (nonlinear_arith)
            requires
                current + 1 == len,
        ;
        0
    } else {
        assert((current + 1) % (len as int) == current + 1) by (nonlinear_arith)
            requires
                current + 1 < len,
        ;
        current + 1
    }
}

/// The track before `current`, wrapping.
pub fn previous_index(current: usize, len: usize) -> (r: usize)
    requires
        current < len,
    ensures
        r == (if current == 0 {
            len - 1
        } else {
            current - 1
        }),
        r < len,
{
    if current == 0 {
        len - 1
    } else {
        current - 1
    }
}

/// Stepping back undoes stepping forward and the other way round.
pub proof fn lemma_track_step_inverse(current: usize, len: usize)
    requires
        current < len,
    ensures
        ({
            let n = ((current + 1) % (len as int)) as usize;
            (if n == 0 {
                len - 1
            } else {
                n - 1
            }) == current
        }),
        ({
            let p: int = if current == 0 {
                len - 1
            } else {
                current - 1
            };
            (p + 1) % (len as int) == current
        }),
{
    if current + 1 == len {
        assert((current + 1) % (len as int) == 0) by (nonlinear_arith)
            requires
                current + 1 == len,
                len > 0,
        ;
    } else {
        assert((current + 1) % (len as int) == current + 1) by (nonlinear_arith)
            requires
                current + 1 < len,
        ;
    }
    if current == 0 {
        assert((len - 1 + 1) % (len as int) == 0) by (nonlinear_arith)
            requires
                len > 0,
        ;
    } else {
        assert((current - 1 + 1) % (len as int) == current) by (nonlinear_arith)
            requires
                0 < current < len,
        ;
    }
}


/// The result word of starting a track: `AudioPlay` when the probe and the
/// stream start worked, else the format's unsupported word.
pub fn music_start_result(kind: AudioKind, started: bool) -> (r: &'static str)
    ensures
        r@ == (if started {
            "AudioPlay"@
        } else if kind == AudioKind::Wav {
            "AudioWavUnsupported"@
        } else {
            "AudioMp3Unsupported"@
        }),
{
    if started {
        "AudioPlay"
    } else {
        match kind {
            AudioKind::Wav => "AudioWavUnsupported",
            AudioKind::Mp3 => "AudioMp3Unsupported",
        }
    }
}

/// The output volume: at most 100.
pub fn clamp_volume(percent: u8) -> (r: u8)
    ensures
        r == (if percent > 100 {
            100
        } else {
            percent
        }),
{
    if percent > 100 {
        100
    } else {
        percent
    }
}

/// The stored music volume as the player reads it: at most 100.
pub fn volume_percent(stored: u32) -> (r: u8)
    ensures
        r == (if stored < 100 {
            stored
        } else {
            100
        }),
{
    if stored < 100 {
        stored as u8
    } else {
        100
    }
}

/// A playable file of the audio folder.
#[derive(Clone, Debug)]
pub struct AudioFileEntry {
    pub path: String,
    pub name: String,
    pub kind: AudioKind,
}

/// What the Music screen shows.
#[derive(Debug)]
pub struct MusicScreenSnapshot {
    pub track_label: String,
    pub subtitle_label: String,
    pub source_label: String,
    pub playing: bool,
    pub progress_percent: u8,
    pub elapsed_label: String,
    pub duration_label: String,
}

/// The player's shared state as the screen reads it.
#[derive(Clone, Copy, Debug)]
pub struct AudioPlayerView {
    pub selected: u32,
    pub playing: bool,
    pub progress_percent: u32,
    pub elapsed_seconds: u32,
    pub duration_seconds: u32,
    pub volume: u32,
}

/// The header probe of the selected track.
#[derive(Clone, Copy, Debug)]
pub enum TrackProbe {
    Wav(Result<WavProbe, &'static str>),
    Mp3(Result<Mp3Probe, &'static str>),
}

/// The subtitle of a probed track.
pub open spec fn subtitle_spec(p: TrackProbe) -> Seq<char> {
    match p {
        TrackProbe::Wav(Ok(w)) => "WAV PCM "@ + dec(w.channels as nat) + "ch "@ + dec(
            w.sample_rate as nat,
        ) + "Hz "@ + dec(w.bits_per_sample as nat) + "bit"@,
        TrackProbe::Wav(Err(e)) => "WAV unsupported "@ + e@,
        TrackProbe::Mp3(Ok(m)) => "MP3 "@ + m.version@ + " "@ + m.layer@ + " "@ + dec(
            m.sample_rate as nat,
        ) + "Hz"@,
        TrackProbe::Mp3(Err(e)) => "MP3 unsupported "@ + e@,
    }
}

/// The duration shown for a probed track before playback: the WAV length,
/// or for MP3 the decoder's duration once known.
pub open spec fn probe_duration_spec(p: TrackProbe, duration_seconds: u32) -> Seq<char> {
    match p {
        TrackProbe::Wav(Ok(w)) => if wav_timed(w) {
            mmss_spec(wav_duration_spec(w))
        } else {
            "--:--"@
        },
        TrackProbe::Wav(Err(_)) => "--:--"@,
        TrackProbe::Mp3(Ok(_)) => if duration_seconds > 0 {
            mmss_spec(duration_seconds)
        } else {
            "MP3"@
        },
        TrackProbe::Mp3(Err(_)) => "MP3"@,
    }
}

fn subtitle_and_duration(probe: TrackProbe, duration_seconds: u32) -> (r: (String, String))
    ensures
        r.0@ == subtitle_spec(probe),
        r.1@ == probe_duration_spec(probe, duration_seconds),
{
    match probe {
        TrackProbe::Wav(Ok(w)) => {
            let mut s = String::new();
            push_str(&mut s, "WAV PCM ");
            push_dec(&mut s, w.channels as u64);
            push_str(&mut s, "ch ");
            push_dec(&mut s, w.sample_rate as u64);
            push_str(&mut s, "Hz ");
            push_dec(&mut s, w.bits_per_sample as u64);
            push_str(&mut s, "bit");
            (s, wav_duration_label(&w))
        },
        TrackProbe::Wav(Err(e)) => {
            let mut s = String::new();
            push_str(&mut s, "WAV unsupported ");
            push_str(&mut s, e);
            (s, "--:--".to_owned())
        },
        TrackProbe::Mp3(Ok(m)) => {
            let mut s = String::new();
            push_str(&mut s, "MP3 ");
            push_str(&mut s, m.version);
            push_str(&mut s, " ");
            push_str(&mut s, m.layer);
            push_str(&mut s, " ");
            push_dec(&mut s, m.sample_rate as u64);
            push_str(&mut s, "Hz");
            let d = if duration_seconds > 0 {
                seconds_to_mmss(duration_seconds)
            } else {
                "MP3".to_owned()
            };
            (s, d)
        },
        TrackProbe::Mp3(Err(e)) => {
            let mut s = String::new();
            push_str(&mut s, "MP3 unsupported ");
            push_str(&mut s, e);
            (s, "MP3".to_owned())
        },
    }
}

/// The duration shown for the selected track: while an MP3 plays and the
/// decoder knows its length, that length; otherwise `fallback`.
pub fn current_music_duration_label(kind: AudioKind, playing: bool, duration_seconds: u32, fallback: String) -> (r:
    String)
    ensures
        r@ == (if kind == AudioKind::Mp3 && playing && duration_seconds > 0 {
            mmss_spec(duration_seconds)
        } else {
            fallback@
        }),
{
    if kind == AudioKind::Mp3 && playing && duration_seconds > 0 {
        seconds_to_mmss(duration_seconds)
    } else {
        fallback
    }
}

/// The Music screen for the track list, the player state and the probe of
/// the selected track: an empty-folder screen without tracks; otherwise the
/// selected track's name (18 characters), probe subtitle, position in the
/// list with player status and volume, progress and times.
pub fn music_screen_snapshot(files: &Vec<AudioFileEntry>, player: &AudioPlayerView, probe: TrackProbe) -> (r:
    MusicScreenSnapshot)
    ensures
        files@.len() == 0 ==> {
            &&& r.track_label@ == "NO AUDIO"@
            &&& r.subtitle_label@ == "Copy WAV/MP3 to /AUDIO"@
            &&& r.source_label@ == "SD /AUDIO"@
            &&& !r.playing
            &&& r.progress_percent == 0
            &&& r.elapsed_label@ == "0:00"@
            &&& r.duration_label@ == "--:--"@
        },
        files@.len() > 0 ==> {
            let idx = selected_index_spec(player.selected, files@.len() as usize);
            let file = files@[idx as int];
            let vol: u32 = if player.volume < 100 { player.volume } else { 100 };
            &&& r.track_label@ == file.name@.take(
                if file.name@.len() < 18 {
                    file.name@.len() as int
                } else {
                    18
                },
            )
            &&& r.subtitle_label@ == subtitle_spec(probe)
            &&& r.source_label@ == "/AUDIO "@ + dec((idx + 1) as nat) + "/"@ + dec(
                files@.len() as nat,
            ) + " "@ + (match (file.kind, player.playing) {
                (AudioKind::Wav, true) => "WAV PLAY"@,
                (AudioKind::Wav, false) => "WAV READY"@,
                (AudioKind::Mp3, true) => "MP3 PLAY"@,
                (AudioKind::Mp3, false) => "MP3 READY"@,
            }) + " VOL "@ + dec(vol as nat) + "%"@
            &&& r.playing == player.playing
            &&& r.progress_percent == (if player.progress_percent < 100 {
                player.progress_percent
            } else {
                100
            })
            &&& r.elapsed_label@ == mmss_spec(player.elapsed_seconds)
            &&& r.duration_label@ == (if file.kind == AudioKind::Mp3 && player.playing
                && player.duration_seconds > 0 {
                mmss_spec(player.duration_seconds)
            } else {
                probe_duration_spec(probe, player.duration_seconds)
            })
        },
        r.progress_percent <= 100,
{
    if files.len() == 0 {
        return MusicScreenSnapshot {
            track_label: "NO AUDIO".to_owned(),
            subtitle_label: "Copy WAV/MP3 to /AUDIO".to_owned(),
            source_label: "SD /AUDIO".to_owned(),
            playing: false,
            progress_percent: 0,
            elapsed_label: "0:00".to_owned(),
            duration_label: "--:--".to_owned(),
        };
    }
    let idx = selected_index(player.selected, files.len());
    let file = &files[idx];
    let progress: u8 = if player.progress_percent < 100 {
        player.progress_percent as u8
    } else {
        100
    };
    let (subtitle, fallback) = subtitle_and_duration(probe, player.duration_seconds);
    let mut source = String::new();
    push_str(&mut source, "/AUDIO ");
    push_dec(&mut source, (idx as u64) + 1);
    push_str(&mut source, "/");
    push_dec(&mut source, files.len() as u64);
    push_str(&mut source, " ");
    push_str(&mut source, playback_status(file.kind, player.playing));
    push_str(&mut source, " VOL ");
    let vol: u32 = if player.volume < 100 {
        player.volume
    } else {
        100
    };
    push_dec(&mut source, vol as u64);
    push_str(&mut source, "%");
    let duration = current_music_duration_label(file.kind, player.playing, player.duration_seconds, fallback);
    MusicScreenSnapshot {
        track_label: trim_label(file.name.as_str(), 18),
        subtitle_label: subtitle,
        source_label: source,
        playing: player.playing,
        progress_percent: progress,
        elapsed_label: seconds_to_mmss(player.elapsed_seconds),
        duration_label: duration,
    }
}

/// The flags a playback thread publishes for the screen: whether a track is
/// playing, whether the thread is still running, and a counter that moves
/// each time the shown progress changes.
#[derive(Debug, Clone, Copy, PartialEq, Eq, Structural)]
pub struct ProgressFlags {
    pub playing: bool,
    pub thread_active: bool,
    pub sequence: u32,
}

impl ProgressFlags {
    /// Nothing playing, counter at zero.
    pub open spec fn spec_new() -> Self {
        ProgressFlags { playing: false, thread_active: false, sequence: 0 }
    }

    /// Nothing playing, counter at zero.
    pub fn new() -> (r: Self)
        ensures
            r == (ProgressFlags { playing: false, thread_active: false, sequence: 0 }),
    {
        ProgressFlags { playing: false, thread_active: false, sequence: 0 }
    }

    /// Moves the counter on by one, wrapping at 2^32.
    pub fn bump_sequence(&mut self)
        ensures
            final(self).sequence == (if old(self).sequence == u32::MAX { 0 } else { (old(self).sequence + 1) as u32 }),
            final(self).playing == old(self).playing,
            final(self).thread_active == old(self).thread_active,
    {
        self.sequence = self.sequence.wrapping_add(1);
    }
}

/// The music progress counter.
pub fn music_progress_sequence(flags: &ProgressFlags) -> (r: u32)
    ensures
        r == flags.sequence,
{
    flags.sequence
}

/// Whether the music screen should keep redrawing progress: a track plays
/// or the playback thread has not finished.
pub fn music_progress_active(flags: &ProgressFlags) -> (r: bool)
    ensures
        r == (flags.playing || flags.thread_active),
{
    flags.playing || flags.thread_active
}

/// What the playback thread last published for the screen: the progress
/// tick, percent played, whole seconds played and the track length.
#[derive(Debug, Clone, Copy, PartialEq, Eq, Structural)]
pub struct AudioProgress {
    pub tick: u32,
    pub percent: u32,
    pub elapsed_seconds: u32,
    pub duration_seconds: u32,
}

/// The counter moved on by one, wrapping at 2^32.
pub open spec fn bumped(seq: u32) -> u32 {
    if seq == u32::MAX {
        0
    } else {
        (seq + 1) as u32
    }
}

/// Clears the published progress before a track starts, and moves the
/// counter on so the screen redraws.
pub fn reset_audio_progress_state(progress: &mut AudioProgress, flags: &mut ProgressFlags)
    ensures
        *final(progress) == (AudioProgress { tick: 0, percent: 0, elapsed_seconds: 0, duration_seconds: 0 }),
        final(flags).sequence == bumped(old(flags).sequence),
        final(flags).playing == old(flags).playing,
        final(flags).thread_active == old(flags).thread_active,
{
    progress.tick = 0;
    progress.percent = 0;
    progress.elapsed_seconds = 0;
    progress.duration_seconds = 0;
    flags.bump_sequence();
}

/// The percent and seconds published after `done` bytes of a WAV stream:
/// the percent of `done` taken modulo 2^32, the seconds of `done` capped at
/// the data length.
pub open spec fn published_progress(done: usize, w: WavProbe) -> (u32, u32) {
    let total: u32 = if w.data_bytes > 1 { w.data_bytes } else { 1 };
    let clamped: u32 = if done < total { done as u32 } else { total };
    (wav_progress_spec(done as u32, w).0, wav_progress_spec(clamped, w).1)
}

/// Publishes the progress of a WAV stream after `done_bytes` bytes; the
/// counter moves on only when the percent or the seconds changed.
pub fn publish_audio_progress(
    progress: &mut AudioProgress,
    flags: &mut ProgressFlags,
    done_bytes: usize,
    wav: &WavProbe,
)
    ensures
        final(progress).percent == published_progress(done_bytes, *wav).0,
        final(progress).elapsed_seconds == published_progress(done_bytes, *wav).1,
        final(progress).tick == old(progress).tick,
        final(progress).duration_seconds == old(progress).duration_seconds,
        final(flags).sequence == (if old(progress).percent != published_progress(done_bytes, *wav).0
            || old(progress).elapsed_seconds != published_progress(done_bytes, *wav).1 {
            bumped(old(flags).sequence)
        } else {
            old(flags).sequence
        }),
        final(flags).playing == old(flags).playing,
        final(flags).thread_active == old(flags).thread_active,
{
    let total: u32 = if wav.data_bytes > 1 {
        wav.data_bytes
    } else {
        1
    };
    let clamped: u32 = if done_bytes < total as usize {
        done_bytes as u32
    } else {
        total
    };
    let (percent, _) = wav_progress(done_bytes as u32, wav);
    let (_, elapsed) = wav_progress(clamped, wav);
    let changed = progress.percent != percent || progress.elapsed_seconds != elapsed;
    progress.percent = percent;
    progress.elapsed_seconds = elapsed;
    if changed {
        flags.bump_sequence();
    }
}

/// The player's shared state: the selected track, whether a stop was
/// requested, the playing/thread flags with the redraw counter, and the
/// published progress.
#[derive(Debug, Clone, Copy, PartialEq, Eq, Structural)]
pub struct MusicControl {
    pub selected: u32,
    pub stop_requested: bool,
    pub flags: ProgressFlags,
    pub progress: AudioProgress,
}

/// No progress published.
pub open spec fn zero_progress() -> AudioProgress {
    AudioProgress { tick: 0, percent: 0, elapsed_seconds: 0, duration_seconds: 0 }
}

/// The state after a stop request: stop asked for, nothing playing.
pub open spec fn music_stopped(c: MusicControl) -> MusicControl {
    MusicControl { stop_requested: true, flags: ProgressFlags { playing: false, ..c.flags }, ..c }
}

/// The state with the progress cleared and the counter moved on.
pub open spec fn progress_cleared(c: MusicControl) -> MusicControl {
    MusicControl {
        progress: zero_progress(),
        flags: ProgressFlags { sequence: bumped(c.flags.sequence), ..c.flags },
        ..c
    }
}

/// NEXT with `len` tracks: playback stops and, when there are tracks, the
/// following one (wrapping) is selected with its progress cleared.
pub open spec fn after_music_next(c: MusicControl, len: nat) -> MusicControl {
    let s = music_stopped(c);
    if len == 0 {
        s
    } else {
        progress_cleared(MusicControl { selected: ((selected_index_spec(c.selected, len as usize) + 1) % (len as int)) as u32, ..s })
    }
}

/// PREV with `len` tracks: playback stops and, when there are tracks, the
/// preceding one (wrapping) is selected with its progress cleared.
pub open spec fn after_music_previous(c: MusicControl, len: nat) -> MusicControl {
    let s = music_stopped(c);
    let current = selected_index_spec(c.selected, len as usize);
    if len == 0 {
        s
    } else {
        progress_cleared(MusicControl { selected: (if current == 0 { len - 1 } else { current - 1 }) as u32, ..s })
    }
}

/// What a PLAY/STOP press on the Music page asks for.
#[derive(Debug, Clone, Copy, PartialEq, Eq, Structural)]
pub enum MusicPress {
    /// There are no tracks; playback was stopped.
    NoFiles,
    /// Playback was stopped.
    Stop,
    /// Probe and start the track at this index.
    Start(usize),
}

/// The state and request of a PLAY/STOP press with `len` tracks.
pub open spec fn after_music_press(c: MusicControl, len: nat) -> (MusicControl, MusicPress) {
    if len == 0 {
        (music_stopped(c), MusicPress::NoFiles)
    } else if c.flags.playing {
        (music_stopped(c), MusicPress::Stop)
    } else {
        (c, MusicPress::Start(selected_index_spec(c.selected, len as usize)))
    }
}

/// The state once a track has started: no stop pending, playing with the
/// thread running, and fresh progress (with the track's length for WAV).
pub open spec fn music_started(c: MusicControl, duration: u32, wav: bool) -> MusicControl {
    let cleared = progress_cleared(c);
    MusicControl {
        stop_requested: false,
        flags: ProgressFlags {
            playing: true,
            thread_active: true,
            sequence: if wav { bumped(cleared.flags.sequence) } else { cleared.flags.sequence },
        },
        progress: AudioProgress { duration_seconds: if wav { duration } else { 0 }, ..zero_progress() },
        ..c
    }
}

/// Why a probed track cannot start, if it cannot: a failed probe, a format
/// the streamer refuses, or a playback thread still running.
pub open spec fn start_refusal(c: MusicControl, probe: TrackProbe) -> Option<Seq<char>> {
    match probe {
        TrackProbe::Wav(Err(e)) => Some(e@),
        TrackProbe::Mp3(Err(e)) => Some(e@),
        TrackProbe::Wav(Ok(w)) => match wav_stream_check_spec(w) {
            Some(e) => Some(e),
            None => if c.flags.thread_active { Some("PLAYER_BUSY"@) } else { None },
        },
        TrackProbe::Mp3(Ok(m)) => if !m.frame_sync {
            Some("NO_FRAME_SYNC"@)
        } else if c.flags.thread_active {
            Some("PLAYER_BUSY"@)
        } else {
            None
        },
    }
}

/// The state after trying to start a probed track.
pub open spec fn after_begin(c: MusicControl, probe: TrackProbe) -> MusicControl {
    match start_refusal(c, probe) {
        Some(_) => MusicControl { flags: ProgressFlags { playing: false, ..c.flags }, ..c },
        None => match probe {
            TrackProbe::Wav(Ok(w)) => music_started(c, wav_duration_spec(w), true),
            _ => music_started(c, 0, false),
        },
    }
}

impl MusicControl {
    /// The first track selected, nothing playing.
    pub fn new() -> (r: Self)
        ensures
            r == (MusicControl { selected: 0, stop_requested: false, flags: ProgressFlags::spec_new(), progress: zero_progress() }),
    {
        MusicControl {
            selected: 0,
            stop_requested: false,
            flags: ProgressFlags::new(),
            progress: AudioProgress { tick: 0, percent: 0, elapsed_seconds: 0, duration_seconds: 0 },
        }
    }

    /// Records a stop request; the caller asks the decoder and the PCM
    /// thread to stop.
    pub fn stop_stream(&mut self)
        ensures
            *final(self) == music_stopped(*old(self)),
    {
        self.stop_requested = true;
        self.flags.playing = false;
    }

    /// NEXT: stops playback and selects the following track; returns the
    /// action name.
    pub fn next_track(&mut self, file_count: usize) -> (r: &'static str)
        ensures
            *final(self) == after_music_next(*old(self), file_count as nat),
            r@ == (if file_count == 0 { "AudioNoFiles"@ } else { "AudioNext"@ }),
    {
        self.stop_stream();
        if file_count == 0 {
            return "AudioNoFiles";
        }
        let next = (selected_index(self.selected, file_count) + 1) % file_count;
        self.selected = next as u32;
        reset_audio_progress_state(&mut self.progress, &mut self.flags);
        "AudioNext"
    }

    /// PREV: stops playback and selects the preceding track; returns the
    /// action name.
    pub fn previous_track(&mut self, file_count: usize) -> (r: &'static str)
        ensures
            *final(self) == after_music_previous(*old(self), file_count as nat),
            r@ == (if file_count == 0 { "AudioNoFiles"@ } else { "AudioPrev"@ }),
    {
        self.stop_stream();
        if file_count == 0 {
            return "AudioNoFiles";
        }
        let current = selected_index(self.selected, file_count);
        let prev = if current == 0 {
            file_count - 1
        } else {
            current - 1
        };
        self.selected = prev as u32;
        reset_audio_progress_state(&mut self.progress, &mut self.flags);
        "AudioPrev"
    }

    /// PLAY/STOP: stops playback, or asks for the selected track to be
    /// probed and started.
    pub fn toggle_play_stop(&mut self, file_count: usize) -> (r: MusicPress)
        ensures
            (*final(self), r) == after_music_press(*old(self), file_count as nat),
    {
        if file_count == 0 {
            self.stop_stream();
            return MusicPress::NoFiles;
        }
        if self.flags.playing {
            self.stop_stream();
            return MusicPress::Stop;
        }
        MusicPress::Start(selected_index(self.selected, file_count))
    }

    /// Starts the probed track when it can play: clears the progress,
    /// records its length and marks it playing; otherwise says why not.
    pub fn begin_track(&mut self, probe: TrackProbe) -> (r: Result<(), &'static str>)
        ensures
            *final(self) == after_begin(*old(self), probe),
            match start_refusal(*old(self), probe) {
                Some(e) => r matches Err(x) && x@ == e,
                None => r is Ok,
            },
    {
        let refusal: Option<&'static str> = match probe {
            TrackProbe::Wav(Err(e)) => Some(e),
            TrackProbe::Mp3(Err(e)) => Some(e),
            TrackProbe::Wav(Ok(w)) => match wav_stream_check(&w) {
                Err(e) => Some(e),
                Ok(()) => if self.flags.thread_active { Some("PLAYER_BUSY") } else { None },
            },
            TrackProbe::Mp3(Ok(m)) => match mp3_stream_check(&m) {
                Err(e) => Some(e),
                Ok(()) => if self.flags.thread_active { Some("PLAYER_BUSY") } else { None },
            },
        };
        match refusal {
            Some(e) => {
                self.flags.playing = false;
                Err(e)
            },
            None => {
                self.stop_requested = false;
                self.flags.playing = true;
                self.flags.thread_active = true;
                reset_audio_progress_state(&mut self.progress, &mut self.flags);
                if let TrackProbe::Wav(Ok(w)) = probe {
                    self.progress.duration_seconds = wav_duration_seconds(&w);
                    self.flags.bump_sequence();
                }
                Ok(())
            },
        }
    }

    /// The audio folder holds no playable file: playback is marked off.
    pub fn note_no_files(&mut self)
        ensures
            *final(self) == (MusicControl {
                flags: ProgressFlags { playing: false, ..old(self).flags },
                ..*old(self)
            }),
    {
        self.flags.playing = false;
    }

    /// Takes the MP3 decoder's progress (percent capped at 100, seconds
    /// played, track length); the counter moves on only on a change.
    pub fn note_decoder_progress(&mut self, percent: u32, elapsed_seconds: u32, duration_seconds: u32)
        ensures
            final(self).progress == (AudioProgress {
                percent: if percent < 100 { percent } else { 100 },
                elapsed_seconds,
                duration_seconds,
                ..old(self).progress
            }),
            final(self).flags.sequence == (if old(self).progress.percent != final(self).progress.percent
                || old(self).progress.elapsed_seconds != elapsed_seconds
                || old(self).progress.duration_seconds != duration_seconds {
                bumped(old(self).flags.sequence)
            } else {
                old(self).flags.sequence
            }),
            final(self).flags.playing == old(self).flags.playing,
            final(self).flags.thread_active == old(self).flags.thread_active,
            final(self).selected == old(self).selected,
            final(self).stop_requested == old(self).stop_requested,
    {
        let p = if percent < 100 { percent } else { 100 };
        let changed = self.progress.percent != p || self.progress.elapsed_seconds != elapsed_seconds
            || self.progress.duration_seconds != duration_seconds;
        self.progress.percent = p;
        self.progress.elapsed_seconds = elapsed_seconds;
        self.progress.duration_seconds = duration_seconds;
        if changed {
            self.flags.bump_sequence();
        }
    }

    /// The playback thread could not be started.
    pub fn start_failed(&mut self)
        ensures
            *final(self) == (MusicControl {
                stop_requested: false,
                flags: ProgressFlags { playing: false, thread_active: false, ..old(self).flags },
                ..*old(self)
            }),
    {
        self.flags.playing = false;
        self.stop_requested = false;
        self.flags.thread_active = false;
    }

    /// The PCM output could not be opened; the thread ends at once.
    pub fn wav_init_failed(&mut self)
        ensures
            *final(self) == (MusicControl {
                flags: ProgressFlags { playing: false, thread_active: false, ..old(self).flags },
                ..*old(self)
            }),
    {
        self.flags.playing = false;
        self.flags.thread_active = false;
    }

    /// The playback thread ended; a track played to its end shows full
    /// progress (a WAV also its whole length as elapsed).
    pub fn track_finished(&mut self, completed: bool, wav: bool)
        ensures
            final(self).selected == old(self).selected,
            !final(self).stop_requested,
            !final(self).flags.playing,
            !final(self).flags.thread_active,
            final(self).flags.sequence == (if completed { bumped(old(self).flags.sequence) } else { old(self).flags.sequence }),
            final(self).progress == (if completed {
                AudioProgress {
                    percent: 100,
                    elapsed_seconds: if wav { old(self).progress.duration_seconds } else { old(self).progress.elapsed_seconds },
                    ..old(self).progress
                }
            } else {
                old(self).progress
            }),
    {
        if completed {
            self.progress.percent = 100;
            if wav {
                self.progress.elapsed_seconds = self.progress.duration_seconds;
            }
            self.flags.bump_sequence();
        }
        self.flags.playing = false;
        self.stop_requested = false;
        self.flags.thread_active = false;
    }
}

/// NEXT and PREV stop playback and leave the newly selected track ready
/// from its start: nothing plays, the progress is cleared, and the next
/// PLAY press asks for exactly that track.
pub proof fn lemma_track_change_leaves_track_ready(c: MusicControl, len: usize)
    requires
        0 < len <= u32::MAX,
    ensures
        !after_music_next(c, len as nat).flags.playing,
        after_music_next(c, len as nat).progress == zero_progress(),
        after_music_press(after_music_next(c, len as nat), len as nat).1 == MusicPress::Start(
            ((selected_index_spec(c.selected, len) + 1) % (len as int)) as usize,
        ),
        !after_music_previous(c, len as nat).flags.playing,
        after_music_previous(c, len as nat).progress == zero_progress(),
        after_music_press(after_music_previous(c, len as nat), len as nat).1 == MusicPress::Start(
            (if selected_index_spec(c.selected, len) == 0 { len - 1 } else { selected_index_spec(c.selected, len) - 1 }) as usize,
        ),
{
}

/// The text of an optional string.
pub open spec fn opt_text(o: Option<String>) -> Option<Seq<char>> {
    match o {
        Some(s) => Some(s@),
        None => None,
    }
}

/// `x + 1`, stopping at the largest `usize`.
pub open spec fn sat_inc_usize(x: usize) -> usize {
    if x < usize::MAX {
        (x + 1) as usize
    } else {
        x
    }
}

/// What a scan of the audio folder found: how many files, how many of each
/// kind, and the first WAV and MP3 files met.
#[derive(Debug)]
pub struct AudioScanSummary {
    pub total: usize,
    pub wav: usize,
    pub mp3: usize,
    pub other: usize,
    pub first_wav: Option<String>,
    pub first_mp3: Option<String>,
}

impl AudioScanSummary {
    /// Nothing scanned yet.
    pub fn new() -> (r: Self)
        ensures
            r.total == 0 && r.wav == 0 && r.mp3 == 0 && r.other == 0,
            r.first_wav is None && r.first_mp3 is None,
    {
        AudioScanSummary { total: 0, wav: 0, mp3: 0, other: 0, first_wav: None, first_mp3: None }
    }

    /// Counts one file found at `path` with the extension `ext` (counters
    /// saturate).
    pub fn note_file(&mut self, path: &str, ext: &str)
        ensures
            final(self).total == sat_inc_usize(old(self).total),
            final(self).wav == (if audio_kind_of_ext(ext@) == Some(AudioKind::Wav) {
                sat_inc_usize(old(self).wav)
            } else {
                old(self).wav
            }),
            final(self).mp3 == (if audio_kind_of_ext(ext@) == Some(AudioKind::Mp3) {
                sat_inc_usize(old(self).mp3)
            } else {
                old(self).mp3
            }),
            final(self).other == (if audio_kind_of_ext(ext@) is None {
                sat_inc_usize(old(self).other)
            } else {
                old(self).other
            }),
            opt_text(final(self).first_wav) == (if audio_kind_of_ext(ext@) == Some(AudioKind::Wav)
                && old(self).first_wav is None {
                Some(path@)
            } else {
                opt_text(old(self).first_wav)
            }),
            opt_text(final(self).first_mp3) == (if audio_kind_of_ext(ext@) == Some(AudioKind::Mp3)
                && old(self).first_mp3 is None {
                Some(path@)
            } else {
                opt_text(old(self).first_mp3)
            }),
    {
        if self.total < usize::MAX {
            self.total = self.total + 1;
        }
        match audio_kind_from_extension(ext) {
            Some(AudioKind::Wav) => {
                if self.wav < usize::MAX {
                    self.wav = self.wav + 1;
                }
                if self.first_wav.is_none() {
                    self.first_wav = Some(path.to_owned());
                }
            },
            Some(AudioKind::Mp3) => {
                if self.mp3 < usize::MAX {
                    self.mp3 = self.mp3 + 1;
                }
                if self.first_mp3.is_none() {
                    self.first_mp3 = Some(path.to_owned());
                }
            },
            None => {
                if self.other < usize::MAX {
                    self.other = self.other + 1;
                }
            },
        }
    }
}

/// The playable entry for a file of the audio folder, if its extension is
/// WAV or MP3 (in any case).
pub fn audio_file_entry(path: &str, name: &str, ext: &str) -> (r: Option<AudioFileEntry>)
    ensures
        match r {
            Some(e) => audio_kind_of_ext(ext@) == Some(e.kind) && e.path@ == path@ && e.name@ == name@,
            None => audio_kind_of_ext(ext@) is None,
        },
{
    match audio_kind_from_extension(ext) {
        None => None,
        Some(kind) => Some(AudioFileEntry { path: path.to_owned(), name: name.to_owned(), kind }),
    }
}

/// Whether the entries of `s` are in order of their names.
pub open spec fn names_sorted(s: Seq<AudioFileEntry>) -> bool {
    forall|a: int, b: int| 0 <= a < b < s.len() ==> !crate::text::lex_lt(#[trigger] s[b].name@, #[trigger] s[a].name@)
}

/// Whether an entry is called `n`.
pub open spec fn named(n: Seq<char>) -> spec_fn(AudioFileEntry) -> bool {
    |e: AudioFileEntry| e.name@ == n
}

proof fn lemma_filter_none(s: Seq<AudioFileEntry>, n: Seq<char>)
    requires
        forall|k: int| 0 <= k < s.len() ==> #[trigger] s[k].name@ != n,
    ensures
        s.filter(named(n)) == Seq::<AudioFileEntry>::empty(),
    decreases s.len(),
{
    reveal(Seq::filter);
    if s.len() > 0 {
        lemma_filter_none(s.drop_last(), n);
        assert(s.last().name@ != n);
    }
    assert(s.filter(named(n)) =~= Seq::<AudioFileEntry>::empty());
}

/// Inserting `f` behind every entry whose name is not greater keeps, for
/// each name, the entries of that name in the order in which they came.
proof fn lemma_insert_keeps_order(o: Seq<AudioFileEntry>, p: int, f: AudioFileEntry, n: Seq<char>)
    requires
        0 <= p <= o.len(),
        names_sorted(o),
        p < o.len() ==> crate::text::lex_lt(f.name@, o[p].name@),
    ensures
        o.insert(p, f).filter(named(n)) == o.filter(named(n)) + seq![f].filter(named(n)),
{
    broadcast use Seq::filter_distributes_over_add;
    let a = o.subrange(0, p);
    let b = o.subrange(p, o.len() as int);
    assert(o =~= a + b);
    assert(o.insert(p, f) =~= a + (seq![f] + b));
    reveal_with_fuel(Seq::filter, 2);
    if f.name@ == n {
        assert forall|k: int| 0 <= k < b.len() implies #[trigger] b[k].name@ != n by {
            if k > 0 {
                assert(!crate::text::lex_lt(o[p + k].name@, o[p].name@));
            } else {
                crate::text::lemma_lex_lt_irreflexive(f.name@);
            }
        }
        lemma_filter_none(b, n);
        assert(o.insert(p, f).filter(named(n)) =~= a.filter(named(n)) + seq![f].filter(named(n)));
        assert(o.filter(named(n)) =~= a.filter(named(n)));
    } else {
        assert(seq![f].filter(named(n)) =~= Seq::<AudioFileEntry>::empty());
        assert(o.insert(p, f).filter(named(n)) =~= a.filter(named(n)) + b.filter(named(n)));
    }
}

/// The entries of the audio folder in order of their names; entries of one
/// name keep the order in which they came.
pub fn sort_audio_files(files: Vec<AudioFileEntry>) -> (r: Vec<AudioFileEntry>)
    ensures
        r@.to_multiset() == files@.to_multiset(),
        r@.len() == files@.len(),
        names_sorted(r@),
        forall|n: Seq<char>| #[trigger] r@.filter(named(n)) == files@.filter(named(n)),
{
    broadcast use vstd::seq_lib::group_to_multiset_ensures;
    broadcast use vstd::multiset::group_multiset_axioms;

    let ghost all = files@;
    let mut rest = files;
    let mut out: Vec<AudioFileEntry> = Vec::new();
    proof {
        assert(out@.to_multiset() =~= vstd::multiset::Multiset::<AudioFileEntry>::empty());
        assert(out@.to_multiset().add(rest@.to_multiset()) =~= all.to_multiset());
        assert forall|n: Seq<char>| #[trigger] all.filter(named(n)) == out@.filter(named(n)) + rest@.filter(named(n)) by {
            reveal(Seq::filter);
            assert(out@.filter(named(n)) =~= Seq::<AudioFileEntry>::empty());
            assert(all.filter(named(n)) =~= out@.filter(named(n)) + rest@.filter(named(n)));
        }
    }
    while rest.len() > 0
        invariant
            out@.to_multiset().add(rest@.to_multiset()) == all.to_multiset(),
            out@.len() + rest@.len() == all.len(),
            names_sorted(out@),
            forall|n: Seq<char>| #[trigger] all.filter(named(n)) == out@.filter(named(n)) + rest@.filter(named(n)),
        decreases rest@.len(),
    {
        let ghost r0 = rest@;
        let f = rest.remove(0);
        let name = crate::text::str_chars(f.name.as_str());
        let mut p: usize = 0;
        while p < out.len()
            invariant
                p <= out@.len(),
                name@ == f.name@,
                forall|k: int| 0 <= k < p ==> !crate::text::lex_lt(name@, #[trigger] out@[k].name@),
            ensures
                p <= out@.len(),
                forall|k: int| 0 <= k < p ==> !crate::text::lex_lt(name@, #[trigger] out@[k].name@),
                p < out@.len() ==> crate::text::lex_lt(name@, out@[p as int].name@),
            decreases out@.len() - p,
        {
            let other = crate::text::str_chars(out[p].name.as_str());
            if crate::text::chars_lt(&name, &other) {
                break;
            }
            p = p + 1;
        }
        let ghost o0 = out@;
        out.insert(p, f);
        proof {
            assert(r0.to_multiset() == r0.remove(0).to_multiset().insert(r0[0])) by {
                vstd::seq_lib::to_multiset_remove(r0, 0);
                vstd::seq_lib::to_multiset_contains(r0, r0[0]);
                assert(r0.to_multiset().contains(r0[0]));
            }
            assert(out@ == o0.insert(p as int, f));
            assert(rest@ == r0.remove(0));
            assert(f == r0[0]);
            vstd::seq_lib::to_multiset_insert(o0, p as int, f);
            assert(out@.to_multiset() == o0.to_multiset().insert(f));
            assert(out@.to_multiset().add(rest@.to_multiset()) =~= o0.to_multiset().add(rest@.to_multiset().insert(f)));
            assert(out@.to_multiset().add(rest@.to_multiset()) =~= all.to_multiset());
            assert forall|n: Seq<char>| #[trigger] all.filter(named(n)) == out@.filter(named(n)) + rest@.filter(named(n)) by {
                broadcast use Seq::filter_distributes_over_add;
                lemma_insert_keeps_order(o0, p as int, f, n);
                assert(r0 =~= seq![f] + rest@);
                assert(all.filter(named(n)) == o0.filter(named(n)) + r0.filter(named(n)));
                assert(all.filter(named(n)) =~= out@.filter(named(n)) + rest@.filter(named(n)));
            }
            assert forall|a: int, b: int| 0 <= a < b < out@.len() implies !crate::text::lex_lt(
                #[trigger] out@[b].name@,
                #[trigger] out@[a].name@,
            ) by {
                if a < p && b == p {
                } else if a == p && b > p {
                    let ob = o0[b - 1];
                    assert(out@[b] == ob);
                    if crate::text::lex_lt(ob.name@, f.name@) {
                        if b - 1 == p {
                            crate::text::lemma_lex_lt_trans(ob.name@, f.name@, o0[p as int].name@);
                            crate::text::lemma_lex_lt_irreflexive(ob.name@);
                        } else {
                            crate::text::lemma_lex_lt_trans(ob.name@, f.name@, o0[p as int].name@);
                            assert(!crate::text::lex_lt(o0[b - 1].name@, o0[p as int].name@));
                        }
                    }
                } else if a < p && b > p {
                    assert(out@[a] == o0[a]);
                    assert(out@[b] == o0[b - 1]);
                } else if b < p {
                    assert(out@[a] == o0[a]);
                    assert(out@[b] == o0[b]);
                } else {
                    assert(out@[a] == o0[a - 1]);
                    assert(out@[b] == o0[b - 1]);
                }
            }
        }
    }
    proof {
        assert(rest@.to_multiset() =~= vstd::multiset::Multiset::<AudioFileEntry>::empty());
        assert(out@.to_multiset() =~= out@.to_multiset().add(rest@.to_multiset()));
        assert forall|n: Seq<char>| #[trigger] out@.filter(named(n)) == all.filter(named(n)) by {
            reveal(Seq::filter);
            assert(rest@.filter(named(n)) =~= Seq::<AudioFileEntry>::empty());
            assert(all.filter(named(n)) =~= out@.filter(named(n)) + rest@.filter(named(n)));
        }
    }
    out
}

} // verus!
