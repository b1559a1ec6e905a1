//! The WAV container for the transport payload: a 44-byte canonical header
//! for mono 16-bit PCM followed by the samples as little-endian pairs, with
//! an encoder, a decoder, and the proof that decoding inverts encoding.

use vstd::prelude::*;

verus! {

/// The two little-endian bytes of a 16-bit field.
pub open spec fn le16(v: u16) -> Seq<u8> {
    seq![(v % 256) as u8, (v / 256) as u8]
}

/// The four little-endian bytes of a 32-bit field.
pub open spec fn le32(v: u32) -> Seq<u8> {
    seq![(v % 256) as u8, (v / 256 % 256) as u8, (v / 65536 % 256) as u8, (v / 16777216) as u8]
}

/// The unsigned value read from two little-endian bytes at `off`.
pub open spec fn parse_u16_at(b: Seq<u8>, off: int) -> int {
    b[off] + 256 * b[off + 1]
}

/// The unsigned value read from four little-endian bytes at `off`.
pub open spec fn parse_u32_at(b: Seq<u8>, off: int) -> int {
    b[off] + 256 * b[off + 1] + 65536 * b[off + 2] + 16777216 * b[off + 3]
}

/// The ASCII tag `RIFF`.
pub open spec fn riff_tag() -> Seq<u8> {
    seq![82u8, 73u8, 70u8, 70u8]
}

/// The ASCII tag `WAVE`.
pub open spec fn wave_tag() -> Seq<u8> {
    seq![87u8, 65u8, 86u8, 69u8]
}

/// The ASCII tag `fmt ` (with a trailing space).
pub open spec fn fmt_tag() -> Seq<u8> {
    seq![102u8, 109u8, 116u8, 32u8]
}

/// The ASCII tag `data`.
pub open spec fn data_tag() -> Seq<u8> {
    seq![100u8, 97u8, 116u8, 97u8]
}

/// The samples of a mono 16-bit PCM stream as little-endian byte pairs.
pub open spec fn sample_le_bytes(s: Seq<i16>) -> Seq<u8> {
    Seq::new(
        (2 * s.len()) as nat,
        |k: int|
            if k % 2 == 0 {
                ((s[k / 2] as u16) % 256) as u8
            } else {
                ((s[k / 2] as u16) / 256) as u8
            },
    )
}

/// The largest sample count whose WAV encoding still fits the container's
/// 32-bit size fields.
pub open spec fn wav_max_samples() -> int {
    (0xffffffff - 44) / 2
}

/// The canonical 44-byte WAV header for `n` mono 16-bit PCM samples: the
/// RIFF chunk with its size, the format chunk fixing PCM, one channel and
/// 16 bits at the given rate, and the data chunk's tag and size.
pub open spec fn wav_header_bytes(n: int, rate: u32) -> Seq<u8>
    recommends
        n <= wav_max_samples(),
        2 * rate <= u32::MAX,
{
    let riff_size = (36 + 2 * n) as u32;
    let byte_rate = (2 * rate) as u32;
    let data_size = (2 * n) as u32;
    riff_tag() + le32(riff_size) + wave_tag() + fmt_tag() + seq![
        16u8,
        0u8,
        0u8,
        0u8,
        1u8,
        0u8,
        1u8,
        0u8,
    ] + le32(rate) + le32(byte_rate) + seq![2u8, 0u8, 16u8, 0u8] + data_tag() + le32(data_size)
}

/// The complete WAV encoding of a mono 16-bit PCM stream: the canonical
/// 44-byte header, then the samples.
pub open spec fn spec_wav_bytes(s: Seq<i16>, rate: u32) -> Seq<u8>
    recommends
        s.len() <= wav_max_samples(),
        2 * rate <= u32::MAX,
{
    wav_header_bytes(s.len() as int, rate) + sample_le_bytes(s)
}

/// Whether `b` is exactly the WAV encoding of some mono 16-bit PCM stream:
/// the tags and fixed format fields are in place and the two size fields
/// agree with the actual length.
pub open spec fn wav_wf(b: Seq<u8>) -> bool {
    &&& b.len() >= 44
    &&& (b.len() - 44) % 2 == 0
    &&& b.subrange(0, 4) == riff_tag()
    &&& parse_u32_at(b, 4) == b.len() - 8
    &&& b.subrange(8, 12) == wave_tag()
    &&& b.subrange(12, 16) == fmt_tag()
    &&& parse_u32_at(b, 16) == 16
    &&& parse_u16_at(b, 20) == 1
    &&& parse_u16_at(b, 22) == 1
    &&& parse_u32_at(b, 28) == 2 * parse_u32_at(b, 24)
    &&& parse_u16_at(b, 32) == 2
    &&& parse_u16_at(b, 34) == 16
    &&& b.subrange(36, 40) == data_tag()
    &&& parse_u32_at(b, 40) == b.len() - 44
}

/// The samples encoded in the data section of a well-formed WAV byte stream.
pub open spec fn wav_samples(b: Seq<u8>) -> Seq<i16> {
    Seq::new(
        ((b.len() - 44) / 2) as nat,
        |i: int| ((b[44 + 2 * i] + 256 * b[45 + 2 * i]) as u16) as i16,
    )
}

/// What decoding a WAV byte stream yields: the samples and the sample rate
/// for a well-formed stream, nothing otherwise.
pub open spec fn spec_parse_wav(b: Seq<u8>) -> Option<(Seq<i16>, u32)> {
    if wav_wf(b) {
        Some((wav_samples(b), parse_u32_at(b, 24) as u32))
    } else {
        None
    }
}

/// Appends the two little-endian bytes of `v`.
fn push_le16(out: &mut Vec<u8>, v: u16)
    ensures
        final(out)@ == old(out)@ + le16(v),
{
    out.push((v % 256) as u8);
    out.push((v / 256) as u8);
    proof {
        assert(out@ =~= old(out)@ + le16(v));
    }
}

/// Appends the four little-endian bytes of `v`.
fn push_le32(out: &mut Vec<u8>, v: u32)
    ensures
        final(out)@ == old(out)@ + le32(v),
{
    out.push((v % 256) as u8);
    out.push((v / 256 % 256) as u8);
    out.push((v / 65536 % 256) as u8);
    out.push((v / 16777216) as u8);
    proof {
        assert(out@ =~= old(out)@ + le32(v));
    }
}

/// Encodes a mono 16-bit PCM stream as a WAV byte stream: the canonical
/// 44-byte header, then each sample as a little-endian pair.
pub fn encode_wav(samples: &Vec<i16>, rate: u32) -> (r: Vec<u8>)
    requires
        samples@.len() <= wav_max_samples(),
        2 * rate <= u32::MAX,
    ensures
        r@ == spec_wav_bytes(samples@, rate),
        r@.len() == 44 + 2 * samples@.len(),
{
    let len: usize = samples.len();
    let data_size: u32 = (2 * len as u64) as u32;
    let mut r: Vec<u8> = Vec::new();
    r.push(82);
    r.push(73);
    r.push(70);
    r.push(70);
    proof {
        assert(r@ =~= riff_tag());
    }
    push_le32(&mut r, 36 + data_size);
    r.push(87);
    r.push(65);
    r.push(86);
    r.push(69);
    r.push(102);
    r.push(109);
    r.push(116);
    r.push(32);
    proof {
        assert(r@ =~= riff_tag() + le32((36 + 2 * samples@.len()) as u32) + wave_tag()
            + fmt_tag());
    }
    push_le32(&mut r, 16);
    push_le16(&mut r, 1);
    push_le16(&mut r, 1);
    push_le32(&mut r, rate);
    push_le32(&mut r, 2 * rate);
    push_le16(&mut r, 2);
    push_le16(&mut r, 16);
    r.push(100);
    r.push(97);
    r.push(116);
    r.push(97);
    push_le32(&mut r, data_size);
    let ghost header: Seq<u8> = r@;
    proof {
        assert(header =~= spec_wav_bytes(samples@, rate).take(44));
        assert(header.len() == 44);
    }
    let mut i: usize = 0;
    while i < len
        invariant
            len == samples@.len(),
            i <= len,
            r@ == header + sample_le_bytes(samples@.take(i as int)),
            header =~= spec_wav_bytes(samples@, rate).take(44),
            header.len() == 44,
        decreases len - i,
    {
        let v: u16 = samples[i] as u16;
        r.push((v % 256) as u8);
        r.push((v / 256) as u8);
        i = i + 1;
        proof {
            assert(r@ =~= header + sample_le_bytes(samples@.take(i as int)));
        }
    }
    proof {
        assert(samples@.take(len as int) =~= samples@);
        assert(r@ =~= spec_wav_bytes(samples@, rate));
    }
    r
}

/// Reads the unsigned 16-bit field at `off`.
fn read_u16_at(b: &Vec<u8>, off: usize) -> (r: u16)
    requires
        off + 2 <= b.len(),
    ensures
        r == parse_u16_at(b@, off as int),
{
    b[off] as u16 + 256 * (b[off + 1] as u16)
}

/// Reads the unsigned 32-bit field at `off`.
fn read_u32_at(b: &Vec<u8>, off: usize) -> (r: u32)
    requires
        off + 4 <= b.len(),
    ensures
        r == parse_u32_at(b@, off as int),
{
    b[off] as u32 + 256 * (b[off + 1] as u32) + 65536 * (b[off + 2] as u32) + 16777216 * (b[off
        + 3] as u32)
}

/// Whether the four bytes at `off` are the tag `t0 t1 t2 t3`.
fn tag_matches(b: &Vec<u8>, off: usize, t0: u8, t1: u8, t2: u8, t3: u8) -> (r: bool)
    requires
        off + 4 <= b.len(),
    ensures
        r == (b@.subrange(off as int, off as int + 4) == seq![t0, t1, t2, t3]),
{
    let m = b[off] == t0 && b[off + 1] == t1 && b[off + 2] == t2 && b[off + 3] == t3;
    proof {
        if m {
            assert(b@.subrange(off as int, off as int + 4) =~= seq![t0, t1, t2, t3]);
        } else {
            assert(b@.subrange(off as int, off as int + 4) != seq![t0, t1, t2, t3]) by {
                let s = b@.subrange(off as int, off as int + 4);
                assert(s[0] == b@[off as int] && s[1] == b@[off as int + 1] && s[2] == b@[off as int
                    + 2] && s[3] == b@[off as int + 3]);
            }
        }
    }
    m
}

/// Decodes a WAV byte stream produced for mono 16-bit PCM: yields the
/// samples and the sample rate exactly when the stream is well formed,
/// nothing otherwise.
pub fn decode_wav(b: &Vec<u8>) -> (r: Option<(Vec<i16>, u32)>)
    ensures
        match r {
            Some(p) => spec_parse_wav(b@) == Some((p.0@, p.1)),
            None => spec_parse_wav(b@) is None,
        },
{
    let len: usize = b.len();
    if len < 44 || (len - 44) % 2 != 0 {
        return None;
    }
    if !tag_matches(b, 0, 82, 73, 70, 70) {
        return None;
    }
    if len as u64 - 8 > u32::MAX as u64 || read_u32_at(b, 4) as u64 != len as u64 - 8 {
        return None;
    }
    if !tag_matches(b, 8, 87, 65, 86, 69) || !tag_matches(b, 12, 102, 109, 116, 32) {
        return None;
    }
    if read_u32_at(b, 16) != 16 || read_u16_at(b, 20) != 1 || read_u16_at(b, 22) != 1 {
        return None;
    }
    let rate: u32 = read_u32_at(b, 24);
    if read_u32_at(b, 28) as u64 != 2 * rate as u64 {
        return None;
    }
    if read_u16_at(b, 32) != 2 || read_u16_at(b, 34) != 16 {
        return None;
    }
    if !tag_matches(b, 36, 100, 97, 116, 97) {
        return None;
    }
    if read_u32_at(b, 40) as u64 != len as u64 - 44 {
        return None;
    }
    proof {
        assert(wav_wf(b@));
    }
    let n: usize = (len - 44) / 2;
    let mut samples: Vec<i16> = Vec::new();
    let mut i: usize = 0;
    while i < n
        invariant
            len == b@.len(),
            44 + 2 * n <= len,
            i <= n,
            samples@ == wav_samples(b@).take(i as int),
            wav_wf(b@),
            n == (b@.len() - 44) / 2,
        decreases n - i,
    {
        let v: u16 = b[44 + 2 * i] as u16 + 256 * (b[45 + 2 * i] as u16);
        samples.push(v as i16);
        i = i + 1;
        proof {
            assert(samples@ =~= wav_samples(b@).take(i as int));
        }
    }
    proof {
        assert(wav_samples(b@).take(n as int) =~= wav_samples(b@));
    }
    Some((samples, rate))
}

/// Reading back the four little-endian bytes of `v` yields `v`.
proof fn lemma_parse_le32(v: u32)
    ensures
        v % 256 + 256 * (v / 256 % 256) + 65536 * (v / 65536 % 256) + 16777216 * (v / 16777216)
            == v,
{
    assert(v % 256 + 256 * (v / 256 % 256) + 65536 * (v / 65536 % 256) + 16777216 * (v / 16777216)
        == v) by (bit_vector);
}

/// Reading back the two little-endian bytes of `v` yields `v`.
proof fn lemma_parse_le16(v: u16)
    ensures
        v % 256 + 256 * (v / 256) == v,
{
    assert(v % 256 + 256 * (v / 256) == v) by (bit_vector);
}

/// Reading back the two little-endian bytes of a signed sample yields the
/// sample.
proof fn lemma_parse_sample(v: i16)
    ensures
        (((v as u16) % 256 + 256 * ((v as u16) / 256)) as u16) as i16 == v,
{
    assert((((v as u16) % 256 + 256 * ((v as u16) / 256)) as u16) as i16 == v) by (bit_vector);
}

/// The fixed fields and size fields of the canonical header read back as
/// written.
proof fn lemma_wav_header_parse(n: int, rate: u32)
    requires
        0 <= n <= wav_max_samples(),
        2 * rate <= u32::MAX,
    ensures
        wav_header_bytes(n, rate).len() == 44,
        wav_header_bytes(n, rate).subrange(0, 4) == riff_tag(),
        parse_u32_at(wav_header_bytes(n, rate), 4) == 36 + 2 * n,
        wav_header_bytes(n, rate).subrange(8, 12) == wave_tag(),
        wav_header_bytes(n, rate).subrange(12, 16) == fmt_tag(),
        parse_u32_at(wav_header_bytes(n, rate), 16) == 16,
        parse_u16_at(wav_header_bytes(n, rate), 20) == 1,
        parse_u16_at(wav_header_bytes(n, rate), 22) == 1,
        parse_u32_at(wav_header_bytes(n, rate), 24) == rate,
        parse_u32_at(wav_header_bytes(n, rate), 28) == 2 * rate,
        parse_u16_at(wav_header_bytes(n, rate), 32) == 2,
        parse_u16_at(wav_header_bytes(n, rate), 34) == 16,
        wav_header_bytes(n, rate).subrange(36, 40) == data_tag(),
        parse_u32_at(wav_header_bytes(n, rate), 40) == 2 * n,
{
    let hdr = wav_header_bytes(n, rate);
    let riff_size: u32 = (36 + 2 * n) as u32;
    let byte_rate: u32 = (2 * rate) as u32;
    let data_size: u32 = (2 * n) as u32;
    assert(hdr.subrange(0, 4) =~= riff_tag());
    assert(hdr.subrange(8, 12) =~= wave_tag());
    assert(hdr.subrange(12, 16) =~= fmt_tag());
    assert(hdr.subrange(36, 40) =~= data_tag());
    lemma_parse_le32(riff_size);
    lemma_parse_le32(rate);
    lemma_parse_le32(byte_rate);
    lemma_parse_le32(data_size);
    assert(parse_u32_at(hdr, 4) == riff_size);
    assert(parse_u32_at(hdr, 16) == 16);
    assert(parse_u16_at(hdr, 20) == 1);
    assert(parse_u16_at(hdr, 22) == 1);
    assert(parse_u32_at(hdr, 24) == rate);
    assert(parse_u32_at(hdr, 28) == byte_rate);
    assert(parse_u16_at(hdr, 32) == 2);
    assert(parse_u16_at(hdr, 34) == 16);
    assert(parse_u32_at(hdr, 40) == data_size);
}

/// The data section of the encoding holds back exactly the encoded samples.
proof fn lemma_wav_samples_recovered(s: Seq<i16>, rate: u32)
    requires
        s.len() <= wav_max_samples(),
        2 * rate <= u32::MAX,
    ensures
        wav_samples(spec_wav_bytes(s, rate)) == s,
{
    let b = spec_wav_bytes(s, rate);
    lemma_wav_header_parse(s.len() as int, rate);
    assert(b.len() == 44 + 2 * s.len());
    assert forall|i: int| 0 <= i < s.len() implies wav_samples(b)[i] == s[i] by {
        assert(b[44 + 2 * i] == sample_le_bytes(s)[2 * i]);
        assert(b[45 + 2 * i] == sample_le_bytes(s)[2 * i + 1]);
        assert(sample_le_bytes(s)[2 * i] == ((s[i] as u16) % 256) as u8);
        assert(sample_le_bytes(s)[2 * i + 1] == ((s[i] as u16) / 256) as u8);
        lemma_parse_sample(s[i]);
    }
    assert(wav_samples(b) =~= s);
}

/// Decoding inverts encoding: the WAV encoding of any mono 16-bit PCM stream
/// that fits the container decodes to exactly the original samples and rate.
#[verifier::rlimit(100)]
pub proof fn lemma_wav_round_trip(s: Seq<i16>, rate: u32)
    requires
        s.len() <= wav_max_samples(),
        2 * rate <= u32::MAX,
    ensures
        spec_parse_wav(spec_wav_bytes(s, rate)) == Some((s, rate)),
{
    let hdr = wav_header_bytes(s.len() as int, rate);
    let b = spec_wav_bytes(s, rate);
    lemma_wav_header_parse(s.len() as int, rate);
    lemma_wav_samples_recovered(s, rate);
    assert(b.len() == 44 + 2 * s.len());
    assert forall|k: int| 0 <= k < 44 implies b[k] == hdr[k] by {}
    assert(b.subrange(0, 4) =~= hdr.subrange(0, 4));
    assert(b.subrange(8, 12) =~= hdr.subrange(8, 12));
    assert(b.subrange(12, 16) =~= hdr.subrange(12, 16));
    assert(b.subrange(36, 40) =~= hdr.subrange(36, 40));
    assert(parse_u32_at(b, 4) == parse_u32_at(hdr, 4));
    assert(parse_u32_at(b, 16) == parse_u32_at(hdr, 16));
    assert(parse_u16_at(b, 20) == parse_u16_at(hdr, 20));
    assert(parse_u16_at(b, 22) == parse_u16_at(hdr, 22));
    assert(parse_u32_at(b, 24) == parse_u32_at(hdr, 24));
    assert(parse_u32_at(b, 28) == parse_u32_at(hdr, 28));
    assert(parse_u16_at(b, 32) == parse_u16_at(hdr, 32));
    assert(parse_u16_at(b, 34) == parse_u16_at(hdr, 34));
    assert(parse_u32_at(b, 40) == parse_u32_at(hdr, 40));
    assert(wav_wf(b));
}

} // verus!
