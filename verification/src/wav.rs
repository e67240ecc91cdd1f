//! The WAV container, read and written at the byte level.
//!
//! The system persists captured audio as 16 kHz mono 16-bit PCM WAV and
//! decodes such files back into samples for the local recognizer.  The
//! encoder emits the canonical 44-byte header followed by little-endian
//! samples; the decoder walks the RIFF chunks, reads the format chunk,
//! and decodes the data chunk, averaging interleaved channels down to
//! mono.

use vstd::prelude::*;
use vstd::string::StringExecFns;
use crate::audio::{frame_at, frame_avg};
use crate::errors::CoreError;
use crate::textops::{dec_digits, has_prefix, u64_to_string};

verus! {

/// The two little-endian bytes of a 16-bit value.
pub open spec fn u16_le(v: int) -> Seq<u8>
    recommends
        0 <= v < 65536,
{
    seq![(v % 256) as u8, (v / 256) as u8]
}

/// The four little-endian bytes of a 32-bit value.
pub open spec fn u32_le(v: int) -> Seq<u8>
    recommends
        0 <= v < 4294967296,
{
    seq![
        (v % 256) as u8,
        (v / 256 % 256) as u8,
        (v / 65536 % 256) as u8,
        (v / 16777216 % 256) as u8,
    ]
}

/// The unsigned 16-bit representation of a signed sample.
pub open spec fn i16_as_u16(v: int) -> int
    recommends
        -32768 <= v < 32768,
{
    if v >= 0 {
        v
    } else {
        v + 65536
    }
}

/// The samples as little-endian 16-bit PCM bytes.
pub open spec fn pcm16_bytes(samples: Seq<i16>) -> Seq<u8> {
    Seq::new(
        2 * samples.len(),
        |i: int|
            if i % 2 == 0 {
                (i16_as_u16(samples[i / 2] as int) % 256) as u8
            } else {
                (i16_as_u16(samples[i / 2] as int) / 256) as u8
            },
    )
}

/// The signed sample encoded by two little-endian bytes.
pub open spec fn i16_from_le(b0: int, b1: int) -> int {
    let u = b0 + 256 * b1;
    if u < 32768 {
        u
    } else {
        u - 65536
    }
}

/// The samples encoded by a 16-bit PCM byte string (a trailing odd byte
/// is ignored).
pub open spec fn pcm16_decode(data: Seq<u8>) -> Seq<i16> {
    Seq::new(data.len() / 2, |i: int| i16_from_le(data[2 * i] as int, data[2 * i + 1] as int) as i16)
}

/// The canonical 44-byte header of a 16 kHz mono 16-bit PCM WAV file
/// holding `n` samples.
pub open spec fn wav_header(n: int) -> Seq<u8> {
    seq![0x52u8, 0x49u8, 0x46u8, 0x46u8]  // "RIFF"
     + u32_le(36 + 2 * n) + seq![0x57u8, 0x41u8, 0x56u8, 0x45u8]  // "WAVE"
     + seq![0x66u8, 0x6du8, 0x74u8, 0x20u8]  // "fmt "
     + u32_le(16)  // format chunk size
     + u16_le(1)  // PCM
     + u16_le(1)  // mono
     + u32_le(16000)  // sample rate
     + u32_le(32000)  // byte rate
     + u16_le(2)  // block align
     + u16_le(16)  // bits per sample
     + seq![0x64u8, 0x61u8, 0x74u8, 0x61u8]  // "data"
     + u32_le(2 * n)
}

/// A complete WAV file for the samples.
pub open spec fn wav_bytes_spec(samples: Seq<i16>) -> Seq<u8> {
    wav_header(samples.len() as int) + pcm16_bytes(samples)
}

fn push_u16_le(out: &mut Vec<u8>, v: u16)
    ensures
        final(out)@ == old(out)@ + u16_le(v as int),
{
    out.push((v % 256) as u8);
    out.push((v / 256) as u8);
    proof {
        assert(final(out)@ =~= old(out)@ + u16_le(v as int));
    }
}

fn push_u32_le(out: &mut Vec<u8>, v: u32)
    ensures
        final(out)@ == old(out)@ + u32_le(v as int),
{
    out.push((v % 256) as u8);
    out.push((v / 256 % 256) as u8);
    out.push((v / 65536 % 256) as u8);
    out.push((v / 16777216 % 256) as u8);
    proof {
        assert(final(out)@ =~= old(out)@ + u32_le(v as int));
    }
}

/// Encode samples as a 16 kHz mono 16-bit WAV file.  A sample count whose
/// data would overflow the container's 32-bit sizes is rejected.
pub fn wav_bytes_from_samples(samples: &Vec<i16>) -> (r: Result<Vec<u8>, CoreError>)
    ensures
        2 * samples@.len() + 36 <= u32::MAX ==> (r matches Ok(b) && b@ == wav_bytes_spec(
            samples@,
        )),
        2 * samples@.len() + 36 > u32::MAX ==> (r matches Err(e) && e matches
            CoreError::AudioProcessing(m) && m@ == "Audio too long for WAV container"@),
{
    let n: usize = samples.len();
    if n > ((u32::MAX - 36) / 2) as usize {
        return Err(
            CoreError::AudioProcessing(String::from_str("Audio too long for WAV container")),
        );
    }
    let data_len: u32 = 2 * (n as u32);
    let mut out: Vec<u8> = Vec::new();
    out.push(0x52);
    out.push(0x49);
    out.push(0x46);
    out.push(0x46);
    push_u32_le(&mut out, 36 + data_len);
    out.push(0x57);
    out.push(0x41);
    out.push(0x56);
    out.push(0x45);
    out.push(0x66);
    out.push(0x6d);
    out.push(0x74);
    out.push(0x20);
    push_u32_le(&mut out, 16);
    push_u16_le(&mut out, 1);
    push_u16_le(&mut out, 1);
    push_u32_le(&mut out, 16000);
    push_u32_le(&mut out, 32000);
    push_u16_le(&mut out, 2);
    push_u16_le(&mut out, 16);
    out.push(0x64);
    out.push(0x61);
    out.push(0x74);
    out.push(0x61);
    push_u32_le(&mut out, data_len);
    proof {
        assert(out@ =~= wav_header(n as int));
    }
    let mut i: usize = 0;
    while i < n
        invariant
            i <= n,
            n == samples@.len(),
            out@ == wav_header(n as int) + pcm16_bytes(samples@.subrange(0, i as int)),
        decreases n - i,
    {
        let s: i16 = samples[i];
        let u: u16 = if s >= 0 {
            s as u16
        } else {
            ((s as i32) + 65536) as u16
        };
        out.push((u % 256) as u8);
        out.push((u / 256) as u8);
        proof {
            assert(u as int == i16_as_u16(samples@[i as int] as int));
            assert(out@ =~= wav_header(n as int) + pcm16_bytes(samples@.subrange(0, i + 1)));
        }
        i += 1;
    }
    proof {
        assert(samples@.subrange(0, n as int) =~= samples@);
    }
    Ok(out)
}

proof fn lemma_u32_le_read(v: int)
    requires
        0 <= v < 4294967296,
    ensures
        u32_le(v)[0] + 256 * u32_le(v)[1] + 65536 * u32_le(v)[2] + 16777216 * u32_le(v)[3] == v,
{
    vstd::arithmetic::div_mod::lemma_fundamental_div_mod(v, 256);
    vstd::arithmetic::div_mod::lemma_fundamental_div_mod(v / 256, 256);
    vstd::arithmetic::div_mod::lemma_fundamental_div_mod(v / 65536, 256);
    vstd::arithmetic::div_mod::lemma_div_denominator(v, 256, 256);
    vstd::arithmetic::div_mod::lemma_div_denominator(v, 65536, 256);
    assert(256 * 256 == 65536);
    assert(65536 * 256 == 16777216);
    assert(v / 16777216 < 256) by {
        vstd::arithmetic::div_mod::lemma_div_is_ordered(v, 4294967295, 16777216);
    }
    vstd::arithmetic::div_mod::lemma_small_mod((v / 16777216) as nat, 256);
}

/// Law: decoding an encoded WAV file yields the original samples.  The
/// canonical header parses as 16 kHz mono 16-bit integer PCM with the
/// data payload right after it, and 16-bit PCM decoding inverts the
/// encoding sample by sample.
pub proof fn lemma_wav_round_trip(samples: Seq<i16>)
    requires
        2 * samples.len() + 36 <= u32::MAX,
    ensures
        ({
            let b = wav_bytes_spec(samples);
            let n = samples.len() as int;
            &&& parse_wav_spec(b) matches Some(p) && p.0.format_tag == 1 && p.0.channels == 1
                && p.0.sample_rate == 16000 && p.0.bits_per_sample == 16 && p.1 == 44 && p.2 == 2
                * n
            &&& pcm16_decode(b.subrange(44, 44 + 2 * n)) == samples
        }),
{
    let b = wav_bytes_spec(samples);
    let n = samples.len() as int;
    let hdr = wav_header(n);
    assert(hdr.len() == 44);
    assert(b.len() == 44 + 2 * n);
    let fmt_id = seq![0x66u8, 0x6du8, 0x74u8, 0x20u8];
    let data_id = seq![0x64u8, 0x61u8, 0x74u8, 0x61u8];

    // the header's field regions
    assert(b.subrange(0, 4) =~= seq![0x52u8, 0x49u8, 0x46u8, 0x46u8]);
    assert(b.subrange(8, 12) =~= seq![0x57u8, 0x41u8, 0x56u8, 0x45u8]);
    assert(b.subrange(12, 16) =~= fmt_id);
    assert(b.subrange(16, 20) =~= u32_le(16));
    assert(b.subrange(20, 22) =~= u16_le(1));
    assert(b.subrange(22, 24) =~= u16_le(1));
    assert(b.subrange(24, 28) =~= u32_le(16000));
    assert(b.subrange(34, 36) =~= u16_le(16));
    assert(b.subrange(36, 40) =~= data_id);
    assert(b.subrange(40, 44) =~= u32_le(2 * n));
    assert(is_riff_wave(b));

    // the format chunk sits at offset 12 and is found first
    assert(read_u32(b, 16) == 16);
    assert(find_chunk(b, 12, fmt_id) == Some((20int, 16int)));
    assert(read_u16(b, 20) == 1);
    assert(read_u16(b, 22) == 1);
    assert(read_u32(b, 24) == 16000);
    assert(read_u16(b, 34) == 16);

    // the data chunk search skips the format chunk and lands at 36
    assert(b.subrange(12, 16) != data_id) by {
        assert(b.subrange(12, 16)[0] != data_id[0]);
    }
    assert(read_u32(b, 40) == 2 * n) by {
        lemma_u32_le_read(2 * n);
    }
    assert(find_chunk(b, 36, data_id) == Some((44int, 2 * n)));
    assert(find_chunk(b, 12, data_id) == Some((44int, 2 * n)));
    assert(parse_wav_spec(b) matches Some(p) && p.0.format_tag == 1 && p.0.channels == 1
        && p.0.sample_rate == 16000 && p.0.bits_per_sample == 16 && p.1 == 44 && p.2 == 2 * n);

    // the payload is the PCM encoding, which decoding inverts
    let data = b.subrange(44, 44 + 2 * n);
    assert(data =~= pcm16_bytes(samples));
    assert forall|i: int| 0 <= i < n implies pcm16_decode(data)[i] == samples[i] by {
        let v = samples[i] as int;
        let u = i16_as_u16(v);
        vstd::arithmetic::div_mod::lemma_fundamental_div_mod(u, 256);
        assert(data[2 * i] == (u % 256) as u8);
        assert(data[2 * i + 1] == (u / 256) as u8);
        assert(i16_from_le(u % 256, u / 256) == v);
    }
    assert(pcm16_decode(data) =~= samples);
}

/// What the format chunk of a WAV file declares.
pub struct WavSpecInfo {
    pub format_tag: u16,
    pub channels: u16,
    pub sample_rate: u32,
    pub bits_per_sample: u16,
}

/// The 16-bit value at `off`, little endian.
pub open spec fn read_u16(b: Seq<u8>, off: int) -> int {
    b[off] + 256 * b[off + 1]
}

/// The 32-bit value at `off`, little endian.
pub open spec fn read_u32(b: Seq<u8>, off: int) -> int {
    b[off] + 256 * b[off + 1] + 65536 * b[off + 2] + 16777216 * b[off + 3]
}

/// Whether the file opens as a RIFF container of WAVE form.
pub open spec fn is_riff_wave(b: Seq<u8>) -> bool {
    &&& b.len() >= 12
    &&& b.subrange(0, 4) == seq![0x52u8, 0x49u8, 0x46u8, 0x46u8]
    &&& b.subrange(8, 12) == seq![0x57u8, 0x41u8, 0x56u8, 0x45u8]
}

/// The first chunk with this id at or after `off`: its payload offset and
/// size.  A chunk whose declared payload runs past the end of the file
/// fails the search; chunk payloads are padded to even lengths when
/// skipped.
pub open spec fn find_chunk(b: Seq<u8>, off: int, id: Seq<u8>) -> Option<(int, int)>
    decreases (if off < 0 || off > b.len() { 0int } else { b.len() - off }),
{
    if off < 0 || off + 8 > b.len() {
        None
    } else {
        let size = read_u32(b, off + 4);
        if b.subrange(off, off + 4) == id {
            if off + 8 + size <= b.len() {
                Some((off + 8, size))
            } else {
                None
            }
        } else {
            let step = 8 + size + (if size % 2 == 1 { 1int } else { 0int });
            find_chunk(b, off + step, id)
        }
    }
}

/// A found chunk lies inside the file.
pub proof fn lemma_find_chunk_in_bounds(b: Seq<u8>, off: int, id: Seq<u8>)
    ensures
        match find_chunk(b, off, id) {
            Some(p) => 8 <= p.0 && 0 <= p.1 && p.0 + p.1 <= b.len(),
            None => true,
        },
    decreases (if off < 0 || off > b.len() { 0int } else { b.len() - off }),
{
    if !(off < 0 || off + 8 > b.len()) {
        let size = read_u32(b, off + 4);
        if b.subrange(off, off + 4) == id {
        } else {
            let step = 8 + size + (if size % 2 == 1 { 1int } else { 0int });
            lemma_find_chunk_in_bounds(b, off + step, id);
        }
    }
}

/// What parsing a WAV file yields: the declared format, and the offset
/// and length of the data payload; `None` for a malformed file.
pub open spec fn parse_wav_spec(b: Seq<u8>) -> Option<(WavSpecInfo, int, int)> {
    if !is_riff_wave(b) {
        None
    } else {
        match find_chunk(b, 12, seq![0x66u8, 0x6du8, 0x74u8, 0x20u8]) {
            None => None,
            Some((fmt_off, fmt_size)) => if fmt_size < 16 {
                None
            } else {
                let info = WavSpecInfo {
                    format_tag: read_u16(b, fmt_off) as u16,
                    channels: read_u16(b, fmt_off + 2) as u16,
                    sample_rate: read_u32(b, fmt_off + 4) as u32,
                    bits_per_sample: read_u16(b, fmt_off + 14) as u16,
                };
                match find_chunk(b, 12, seq![0x64u8, 0x61u8, 0x74u8, 0x61u8]) {
                    None => None,
                    Some((data_off, data_size)) => Some((info, data_off, data_size)),
                }
            },
        }
    }
}

fn get_u16(b: &Vec<u8>, off: usize) -> (r: u16)
    requires
        off + 2 <= b@.len(),
    ensures
        r as int == read_u16(b@, off as int),
{
    let _n: usize = b.len();
    (b[off] as u16) + 256 * (b[off + 1] as u16)
}

fn get_u32(b: &Vec<u8>, off: usize) -> (r: u32)
    requires
        off + 4 <= b@.len(),
    ensures
        r as int == read_u32(b@, off as int),
{
    let _n: usize = b.len();
    (b[off] as u32) + 256 * (b[off + 1] as u32) + 65536 * (b[off + 2] as u32) + 16777216 * (b[off
        + 3] as u32)
}

fn id_matches(b: &Vec<u8>, off: usize, c0: u8, c1: u8, c2: u8, c3: u8) -> (r: bool)
    requires
        off + 4 <= b@.len(),
    ensures
        r == (b@.subrange(off as int, off as int + 4) == seq![c0, c1, c2, c3]),
{
    let _n: usize = b.len();
    let m = b[off] == c0 && b[off + 1] == c1 && b[off + 2] == c2 && b[off + 3] == c3;
    proof {
        let sub = b@.subrange(off as int, off as int + 4);
        if m {
            assert(sub =~= seq![c0, c1, c2, c3]);
        } else {
            if sub == seq![c0, c1, c2, c3] {
                assert(sub[0] == c0 && sub[1] == c1 && sub[2] == c2 && sub[3] == c3);
            }
        }
    }
    m
}

fn find_chunk_exec(b: &Vec<u8>, start: usize, c0: u8, c1: u8, c2: u8, c3: u8) -> (r: Option<
    (usize, usize),
>)
    requires
        start <= b@.len(),
    ensures
        match find_chunk(b@, start as int, seq![c0, c1, c2, c3]) {
            Some((off, size)) => r matches Some(p) && p.0 == off && p.1 == size,
            None => r is None,
        },
{
    let ghost id = seq![c0, c1, c2, c3];
    let n: usize = b.len();
    let mut off: usize = start;
    loop
        invariant
            off <= n,
            n == b@.len(),
            id == seq![c0, c1, c2, c3],
            find_chunk(b@, start as int, id) == find_chunk(b@, off as int, id),
        decreases n - off,
    {
        if n - off < 8 {
            return None;
        }
        let size: u32 = get_u32(b, off + 4);
        let avail: usize = n - off - 8;
        if id_matches(b, off, c0, c1, c2, c3) {
            if size as u64 <= avail as u64 {
                return Some((off + 8, size as usize));
            } else {
                return None;
            }
        }
        let pad: u64 = if size % 2 == 1 {
            1
        } else {
            0
        };
        if size as u64 + pad > avail as u64 {
            proof {
                let step = 8 + size + (if (size as int) % 2 == 1 { 1int } else { 0int });
                assert((off as int) + step > n);
                assert(find_chunk(b@, off as int + step, id) is None);
            }
            return None;
        }
        let next: usize = off + 8 + (size as usize) + (pad as usize);
        proof {
            let step = 8 + size + (if (size as int) % 2 == 1 { 1int } else { 0int });
            assert(next as int == off as int + step);
        }
        off = next;
    }
}

/// Parse the RIFF structure of a WAV file: the declared format and the
/// location of the sample data.  Exactly the files [`parse_wav_spec`]
/// accepts are parsed; anything else is an `AudioProcessing` error whose
/// message begins `Invalid WAV`.
pub fn parse_wav_header(bytes: &Vec<u8>) -> (r: Result<(WavSpecInfo, usize, usize), CoreError>)
    ensures
        match parse_wav_spec(bytes@) {
            Some(parsed) => r matches Ok(p) && p.0 == parsed.0 && p.1 == parsed.1 && p.2
                == parsed.2,
            None => r matches Err(e) && e matches CoreError::AudioProcessing(m) && has_prefix(
                m@,
                "Invalid WAV"@,
            ),
        },
{
    let n = bytes.len();
    if n < 12 {
        proof {
            reveal_strlit("Invalid WAV: truncated header");
            reveal_strlit("Invalid WAV");
            assert("Invalid WAV: truncated header"@.subrange(0, 11) =~= "Invalid WAV"@);
        }
        return Err(CoreError::AudioProcessing(String::from_str("Invalid WAV: truncated header")));
    }
    if !id_matches(bytes, 0, 0x52, 0x49, 0x46, 0x46) || !id_matches(bytes, 8, 0x57, 0x41, 0x56,
        0x45) {
        proof {
            reveal_strlit("Invalid WAV: not a RIFF WAVE file");
            reveal_strlit("Invalid WAV");
            assert("Invalid WAV: not a RIFF WAVE file"@.subrange(0, 11) =~= "Invalid WAV"@);
        }
        return Err(
            CoreError::AudioProcessing(String::from_str("Invalid WAV: not a RIFF WAVE file")),
        );
    }
    let fmt = find_chunk_exec(bytes, 12, 0x66, 0x6d, 0x74, 0x20);
    let (fmt_off, fmt_size) = match fmt {
        Some(p) => p,
        None => {
            proof {
                reveal_strlit("Invalid WAV: no format chunk");
                reveal_strlit("Invalid WAV");
                assert("Invalid WAV: no format chunk"@.subrange(0, 11) =~= "Invalid WAV"@);
            }
            return Err(
                CoreError::AudioProcessing(String::from_str("Invalid WAV: no format chunk")),
            );
        }
    };
    if fmt_size < 16 {
        proof {
            reveal_strlit("Invalid WAV: format chunk too short");
            reveal_strlit("Invalid WAV");
            assert("Invalid WAV: format chunk too short"@.subrange(0, 11) =~= "Invalid WAV"@);
        }
        return Err(
            CoreError::AudioProcessing(String::from_str("Invalid WAV: format chunk too short")),
        );
    }
    proof {
        lemma_find_chunk_in_bounds(bytes@, 12, seq![0x66u8, 0x6du8, 0x74u8, 0x20u8]);
    }
    let info = WavSpecInfo {
        format_tag: get_u16(bytes, fmt_off),
        channels: get_u16(bytes, fmt_off + 2),
        sample_rate: get_u32(bytes, fmt_off + 4),
        bits_per_sample: get_u16(bytes, fmt_off + 14),
    };
    let data = find_chunk_exec(bytes, 12, 0x64, 0x61, 0x74, 0x61);
    match data {
        Some(p) => Ok((info, p.0, p.1)),
        None => {
            proof {
                reveal_strlit("Invalid WAV: no data chunk");
                reveal_strlit("Invalid WAV");
                assert("Invalid WAV: no data chunk"@.subrange(0, 11) =~= "Invalid WAV"@);
            }
            Err(CoreError::AudioProcessing(String::from_str("Invalid WAV: no data chunk")))
        }
    }
}

/// The result decoding owes for a WAV file: the decoded mono samples,
/// or the error naming what disqualified the file.
pub open spec fn decode_result_spec(b: Seq<u8>, r: Result<Vec<i16>, CoreError>) -> bool {
    match parse_wav_spec(b) {
        None => r matches Err(e) && e matches CoreError::AudioProcessing(m) && has_prefix(
            m@,
            "Invalid WAV"@,
        ),
        Some(parsed) => {
            let info = parsed.0;
            let decoded = pcm16_decode(b.subrange(parsed.1, parsed.1 + parsed.2));
            if info.sample_rate != 16000 {
                r matches Err(e) && e matches CoreError::AudioProcessing(m) && m@
                    == "Expected 16kHz, got "@ + dec_digits(info.sample_rate as int) + "Hz"@
            } else if info.format_tag != 1 || info.bits_per_sample != 16 {
                r matches Err(e) && e matches CoreError::AudioProcessing(m) && m@
                    == "Unsupported sample format"@
            } else if info.channels == 0 {
                r matches Err(e) && e matches CoreError::AudioProcessing(m) && m@
                    == "Invalid WAV: no channels"@
            } else if info.channels == 1 {
                r matches Ok(v) && v@ == decoded
            } else {
                r matches Ok(v) && v@.len() == (decoded.len() + info.channels - 1) / (
                info.channels as int) && forall|j: int|
                    0 <= j < v@.len() ==> #[trigger] v@[j] as int == frame_avg(
                        frame_at(decoded, info.channels as int, j),
                        info.channels as int,
                    )
            }
        },
    }
}

/// Decode a WAV file into mono samples for the recognizer.  The file must
/// parse, declare the recognizer's 16 kHz rate, and carry 16-bit integer
/// PCM; interleaved channels are averaged down to mono.
pub fn decode_wav_to_samples(bytes: &Vec<u8>) -> (r: Result<Vec<i16>, CoreError>)
    ensures
        decode_result_spec(bytes@, r),
{
    let parsed = parse_wav_header(bytes)?;
    let (info, data_off, data_len) = parsed;
    if info.sample_rate != 16000 {
        let mut m = String::from_str("Expected 16kHz, got ");
        m.append(u64_to_string(info.sample_rate as u64).as_str());
        m.append("Hz");
        return Err(CoreError::AudioProcessing(m));
    }
    if info.format_tag != 1 || info.bits_per_sample != 16 {
        return Err(CoreError::AudioProcessing(String::from_str("Unsupported sample format")));
    }
    if info.channels == 0 {
        return Err(CoreError::AudioProcessing(String::from_str("Invalid WAV: no channels")));
    }
    proof {
        lemma_find_chunk_in_bounds(bytes@, 12, seq![0x64u8, 0x61u8, 0x74u8, 0x61u8]);
    }
    let ghost data = bytes@.subrange(data_off as int, data_off as int + data_len as int);
    let total: usize = bytes.len();
    let n_samples: usize = data_len / 2;
    let mut samples: Vec<i16> = Vec::new();
    let mut i: usize = 0;
    while i < n_samples
        invariant
            i <= n_samples,
            n_samples == data.len() / 2,
            data == bytes@.subrange(data_off as int, data_off as int + data.len() as int),
            data.len() == data_len,
            data_off + data.len() <= total,
            total == bytes@.len(),
            samples@.len() == i,
            forall|k: int| 0 <= k < i ==> #[trigger] samples@[k] == pcm16_decode(data)[k],
        decreases n_samples - i,
    {
        let b0: u16 = bytes[data_off + 2 * i] as u16;
        let b1: u16 = bytes[data_off + 2 * i + 1] as u16;
        let u: u16 = b0 + 256 * b1;
        let v: i16 = if u < 32768 {
            u as i16
        } else {
            ((u as i32) - 65536) as i16
        };
        proof {
            assert(data[2 * i as int] == bytes@[data_off + 2 * i]);
            assert(data[2 * i as int + 1] == bytes@[data_off + 2 * i + 1]);
            assert(v as int == i16_from_le(data[2 * i as int] as int, data[2 * i as int + 1] as int));
        }
        samples.push(v);
        i += 1;
    }
    proof {
        assert(samples@ =~= pcm16_decode(data));
    }
    if info.channels == 1 {
        Ok(samples)
    } else {
        Ok(crate::audio::downmix_channels(&samples, info.channels))
    }
}

/// The largest positive amplitude of integer PCM at this bit depth:
/// `2^(bits-1) - 1`, the shift capped at 62 so the value fits an `i64`.
pub open spec fn max_amplitude_spec(bits_per_sample: int) -> int {
    if bits_per_sample <= 1 {
        1
    } else if bits_per_sample - 1 <= 62 {
        vstd::arithmetic::power2::pow2((bits_per_sample - 1) as nat) - 1
    } else {
        vstd::arithmetic::power2::pow2(62) - 1
    }
}

/// Calculate the maximum integer amplitude for normalization at a given
/// bit depth.
pub fn max_int_amplitude(bits_per_sample: u16) -> (r: u64)
    ensures
        r == max_amplitude_spec(bits_per_sample as int),
{
    if bits_per_sample <= 1 {
        return 1;
    }
    let shift: u32 = if bits_per_sample - 1 <= 62 {
        (bits_per_sample - 1) as u32
    } else {
        62
    };
    proof {
        vstd::arithmetic::power2::lemma_pow2_pos(shift as nat);
    }
    crate::retry::exp2(shift) - 1
}

} // verus!
