//! Sample-level operations of the encode-on-stop pipeline: normalization of
//! integer capture formats, mixing interleaved channels down to mono, and
//! nearest-neighbor decimation to the transport sample rate.

use vstd::prelude::*;

verus! {

/// The sample rate of the encoded transport payload, in Hz.
pub const TARGET_SAMPLE_RATE: u32 = 16000;

/// A centered signed 16-bit sample for an unsigned 16-bit capture sample.
pub open spec fn spec_pcm_from_u16(s: u16) -> i16 {
    (s - 32768) as i16
}

/// Normalizes one unsigned 16-bit capture sample to a signed PCM sample by
/// centering it on zero.
pub fn pcm_from_u16(s: u16) -> (r: i16)
    ensures
        r == spec_pcm_from_u16(s),
        r as int == s as int - 32768,
{
    let d: i32 = s as i32 - 32768;
    d as i16
}

/// Integer division that truncates toward zero, for a positive divisor.
pub open spec fn div_to_zero(a: int, b: int) -> int
    recommends
        b > 0,
{
    if a >= 0 {
        a / b
    } else {
        -((-a) / b)
    }
}

/// The sum of the samples `s[i..j]`.
pub open spec fn sum_range(s: Seq<i16>, i: int, j: int) -> int
    decreases j - i,
{
    if i >= j {
        0
    } else {
        s[i] + sum_range(s, i + 1, j)
    }
}

/// The number of frames in an interleaved buffer of `len` samples with
/// `ch` channels; a trailing partial frame counts as one frame.
pub open spec fn frame_count(len: int, ch: int) -> int
    recommends
        ch > 0,
{
    (len + ch - 1) / ch
}

/// The mono sample for frame `f`: the truncated average over the frame's
/// channels. A trailing partial frame is still divided by the full channel
/// count, as the capture pipeline does.
pub open spec fn mixed_sample(s: Seq<i16>, ch: int, f: int) -> int
    recommends
        ch > 0,
{
    let start = f * ch;
    let end = if start + ch <= s.len() {
        start + ch
    } else {
        s.len() as int
    };
    div_to_zero(sum_range(s, start, end), ch)
}

/// The mono mix of an interleaved buffer: one truncated channel average
/// per frame.
pub open spec fn spec_mono_mix(s: Seq<i16>, ch: int) -> Seq<i16>
    recommends
        ch > 0,
{
    Seq::new(frame_count(s.len() as int, ch) as nat, |f: int| mixed_sample(s, ch, f) as i16)
}

proof fn lemma_sum_range_unfold_right(s: Seq<i16>, i: int, j: int)
    requires
        0 <= i < j <= s.len(),
    ensures
        sum_range(s, i, j) == sum_range(s, i, j - 1) + s[j - 1],
    decreases j - i,
{
    if i + 1 == j {
        assert(sum_range(s, i, j) == s[i] + sum_range(s, i + 1, j));
        assert(sum_range(s, i + 1, j) == 0);
        assert(sum_range(s, i, j - 1) == 0);
    } else {
        lemma_sum_range_unfold_right(s, i + 1, j);
        assert(sum_range(s, i, j) == s[i] + sum_range(s, i + 1, j));
        assert(sum_range(s, i, j - 1) == s[i] + sum_range(s, i + 1, j - 1));
    }
}

/// The truncated channel average of a frame lies in the 16-bit sample range.
proof fn lemma_div_to_zero_bounds(sum: int, ch: int, width: int)
    requires
        ch >= 1,
        0 <= width <= ch,
        -32768 * width <= sum <= 32767 * width,
    ensures
        -32768 <= div_to_zero(sum, ch) <= 32767,
{
    if sum >= 0 {
        assert(sum / ch <= 32767 && sum / ch >= 0) by (nonlinear_arith)
            requires
                ch >= 1,
                0 <= width <= ch,
                0 <= sum <= 32767 * width,
        ;
    } else {
        assert(0 <= (-sum) / ch <= 32768) by (nonlinear_arith)
            requires
                ch >= 1,
                0 <= width <= ch,
                0 < -sum <= 32768 * width,
        ;
    }
}

/// Truncated-toward-zero division of `a` by a positive divisor, computed
/// through unsigned division.
fn div_i64_to_zero(a: i64, b: u64) -> (q: i64)
    requires
        0 < b,
        a > i64::MIN,
    ensures
        q == div_to_zero(a as int, b as int),
{
    if a >= 0 {
        let q: u64 = (a as u64) / b;
        q as i64
    } else {
        let m: u64 = ((-a) as u64) / b;
        -(m as i64)
    }
}

/// Mixes an interleaved multi-channel buffer down to mono by averaging the
/// channels of each frame; the average truncates toward zero. A one-channel
/// buffer comes back unchanged.
pub fn mix_to_mono(samples: &Vec<i16>, channels: u16) -> (r: Vec<i16>)
    requires
        channels >= 1,
    ensures
        r@ == spec_mono_mix(samples@, channels as int),
        r@.len() == frame_count(samples@.len() as int, channels as int),
{
    let ghost ch: int = channels as int;
    let len: usize = samples.len();
    let whole: usize = len / (channels as usize);
    let rem: usize = len % (channels as usize);
    proof {
        assert(len as int % ch > 0 ==> len as int / ch + 1 <= len) by (nonlinear_arith)
            requires
                ch >= 1,
                len >= 0,
        ;
    }
    let n_frames: usize = if rem > 0 {
        whole + 1
    } else {
        whole
    };
    proof {
        assert(n_frames == frame_count(len as int, ch)) by (nonlinear_arith)
            requires
                ch >= 1,
                len >= 0,
                n_frames == len as int / ch + (if len as int % ch > 0 {
                    1int
                } else {
                    0int
                }),
        ;
    }
    let mut r: Vec<i16> = Vec::new();
    let mut f: usize = 0;
    while f < n_frames
        invariant
            channels >= 1,
            ch == channels as int,
            len == samples@.len(),
            n_frames == frame_count(len as int, ch),
            f <= n_frames,
            r@.len() == f,
            r@ == spec_mono_mix(samples@, ch).take(f as int),
        decreases n_frames - f,
    {
        proof {
            assert(0 <= f * ch && f * ch <= len && f * ch + ch <= len + ch) by (nonlinear_arith)
                requires
                    ch >= 1,
                    0 <= f < n_frames,
                    n_frames == (len + ch - 1) / ch,
                    len >= 0,
            ;
        }
        let start: usize = f * (channels as usize);
        let end: usize = if len - start > channels as usize {
            start + channels as usize
        } else {
            len
        };
        let mut sum: i64 = 0;
        let mut k: usize = start;
        while k < end
            invariant
                start <= k <= end <= samples@.len(),
                end - start <= 65535,
                sum == sum_range(samples@, start as int, k as int),
                -32768 * (k - start) <= sum <= 32767 * (k - start),
            decreases end - k,
        {
            proof {
                lemma_sum_range_unfold_right(samples@, start as int, k + 1);
            }
            sum = sum + samples[k] as i64;
            k = k + 1;
        }
        let q: i64 = div_i64_to_zero(sum, channels as u64);
        proof {
            lemma_div_to_zero_bounds(sum as int, ch, end - start);
            assert(-32768 <= q <= 32767);
            assert(mixed_sample(samples@, ch, f as int) == q as int);
        }
        r.push(q as i16);
        f = f + 1;
        proof {
            assert(r@ =~= spec_mono_mix(samples@, ch).take(f as int));
        }
    }
    proof {
        assert(spec_mono_mix(samples@, ch).take(n_frames as int) =~= spec_mono_mix(samples@, ch));
    }
    r
}

/// The decimated buffer: output index `i` maps to source index
/// `floor(i * from / to)`, and the length shrinks by the rate ratio.
pub open spec fn spec_decimate(s: Seq<i16>, from: int, to: int) -> Seq<i16>
    recommends
        1 <= to <= from,
{
    Seq::new((s.len() * to / from) as nat, |i: int| s[i * from / to])
}

proof fn lemma_decimate_index_in_range(len: int, from: int, to: int, i: int)
    requires
        1 <= to <= from,
        len >= 0,
        0 <= i < len * to / from,
    ensures
        0 <= i * from / to < len,
{
    let n = len * to / from;
    assert(len * to >= 0) by (nonlinear_arith)
        requires
            len >= 0,
            to >= 1,
    ;
    assert(n * from <= len * to) by (nonlinear_arith)
        requires
            from >= 1,
            n == len * to / from,
            len * to >= 0,
    ;
    assert((i + 1) * from <= n * from && (i + 1) * from == i * from + from) by (nonlinear_arith)
        requires
            from >= 1,
            i + 1 <= n,
    ;
    assert(i * from <= len * to - from);
    assert(i * from >= 0) by (nonlinear_arith)
        requires
            i >= 0,
            from >= 1,
    ;
    assert(i * from / to <= (len * to - from) / to) by (nonlinear_arith)
        requires
            to >= 1,
            i * from <= len * to - from,
            i * from >= 0,
    ;
    assert((len * to - from) / to <= (len * to - to) / to) by (nonlinear_arith)
        requires
            to >= 1,
            to <= from,
            len * to - from >= 0,
    ;
    assert((len * to - to) / to == len - 1) by (nonlinear_arith)
        requires
            to >= 1,
    ;
    assert(i * from / to >= 0) by (nonlinear_arith)
        requires
            to >= 1,
            i * from >= 0,
    ;
}

/// Decimates a buffer from `from_rate` down to `to_rate` by nearest-neighbor
/// sampling: output index `i` takes the source sample at
/// `floor(i * from_rate / to_rate)`. A deliberately lossy approximation, not
/// a band-limited resampler.
pub fn decimate(samples: &Vec<i16>, from_rate: u32, to_rate: u32) -> (r: Vec<i16>)
    requires
        1 <= to_rate <= from_rate,
    ensures
        r@ == spec_decimate(samples@, from_rate as int, to_rate as int),
        r@.len() == samples@.len() * (to_rate as int) / (from_rate as int),
{
    let ghost from: int = from_rate as int;
    let ghost to: int = to_rate as int;
    let len: usize = samples.len();
    proof {
        assert(0 <= len * to < 0x100000000000000000000000000000000) by (nonlinear_arith)
            requires
                0 <= len < 0x10000000000000000,
                1 <= to < 0x100000000,
        ;
        assert(len * to / from <= len) by (nonlinear_arith)
            requires
                1 <= to <= from,
                len >= 0,
        ;
    }
    let new_len_wide: u128 = (len as u128) * (to_rate as u128) / (from_rate as u128);
    let new_len: usize = new_len_wide as usize;
    let mut r: Vec<i16> = Vec::new();
    let mut i: usize = 0;
    while i < new_len
        invariant
            1 <= to <= from,
            from == from_rate as int,
            to == to_rate as int,
            from < 0x100000000,
            len == samples@.len(),
            new_len == len * to / from,
            i <= new_len,
            r@ == spec_decimate(samples@, from, to).take(i as int),
        decreases new_len - i,
    {
        proof {
            assert(0 <= i * from < 0x100000000000000000000000000000000) by (nonlinear_arith)
                requires
                    0 <= i < 0x10000000000000000,
                    1 <= from < 0x100000000,
            ;
            lemma_decimate_index_in_range(len as int, from, to, i as int);
        }
        let idx_wide: u128 = (i as u128) * (from_rate as u128) / (to_rate as u128);
        let idx: usize = idx_wide as usize;
        r.push(samples[idx]);
        i = i + 1;
        proof {
            assert(r@ =~= spec_decimate(samples@, from, to).take(i as int));
        }
    }
    proof {
        assert(spec_decimate(samples@, from, to).take(new_len as int) =~= spec_decimate(
            samples@,
            from,
            to,
        ));
    }
    r
}

/// What the rate-adjustment step leaves of a mono buffer: unchanged when the
/// source rate does not exceed the target, decimated otherwise.
pub open spec fn spec_resample(s: Seq<i16>, rate: int, target: int) -> Seq<i16>
    recommends
        1 <= target,
{
    if rate > target {
        spec_decimate(s, rate, target)
    } else {
        s
    }
}

/// Brings a mono buffer down to the target rate when the source rate exceeds
/// it; a buffer already at or below the target rate comes back unchanged.
pub fn resample_to_target(samples: &Vec<i16>, rate: u32, target: u32) -> (r: Vec<i16>)
    requires
        1 <= target,
    ensures
        r@ == spec_resample(samples@, rate as int, target as int),
        rate <= target ==> r@ == samples@,
{
    if rate > target {
        decimate(samples, rate, target)
    } else {
        let r = samples.clone();
        proof {
            assert(r@ =~= samples@);
        }
        r
    }
}

/// The mono mix of a two-channel interleaved buffer `[L0, R0, L1, R1, ...]`
/// is exactly `[(L0+R0)/2, (L1+R1)/2, ...]`, the division truncating toward
/// zero.
pub proof fn lemma_stereo_mix(s: Seq<i16>, f: int)
    requires
        s.len() % 2 == 0,
        0 <= f < s.len() / 2,
    ensures
        spec_mono_mix(s, 2).len() == s.len() / 2,
        spec_mono_mix(s, 2)[f] as int == div_to_zero(s[2 * f] + s[2 * f + 1], 2),
{
    assert(frame_count(s.len() as int, 2) == s.len() / 2);
    assert(2 * f + 2 <= s.len()) by (nonlinear_arith)
        requires
            0 <= f < s.len() / 2,
            s.len() % 2 == 0,
    ;
    let start = 2 * f;
    assert(sum_range(s, start, start + 2) == s[start] + sum_range(s, start + 1, start + 2));
    assert(sum_range(s, start + 1, start + 2) == s[start + 1] + sum_range(
        s,
        start + 2,
        start + 2,
    ));
    assert(sum_range(s, start + 2, start + 2) == 0);
    lemma_div_to_zero_bounds(sum_range(s, start, start + 2), 2, 2);
    assert(mixed_sample(s, 2, f) == div_to_zero(s[2 * f] + s[2 * f + 1], 2));
}

} // verus!
