//! The audio capture pipeline: a recording session over a shared sample
//! buffer, channel downmixing, linear resampling to the fixed target rate,
//! and encoding to an uncompressed RIFF/WAVE container.
//!
//! The hardware stream itself lives on a dedicated thread in the
//! surrounding application; it feeds captured frames to
//! [`AudioRecorder::append_samples`] and performs the start/stop/join
//! choreography, while every sample computation is verified here.

use vstd::prelude::*;

use vstd::arithmetic::div_mod::{
    lemma_div_denominator, lemma_div_pos_is_pos, lemma_fundamental_div_mod,
    lemma_multiply_divide_le,
};
use vstd::arithmetic::mul::lemma_mul_inequality;
use vstd::string::{is_ascii, StringSliceAdditionalSpecFns};

verus! {

/// The fixed sample rate recognized speech is resampled to.
pub const SAMPLE_RATE: u32 = 16000;

/// The fixed channel count of the encoded artifact.
pub const CHANNELS: u16 = 1;

/// Truncating division (toward zero) for a positive divisor, as the
/// hardware sample arithmetic performs it.
pub open spec fn spec_tdiv(a: int, b: int) -> int {
    if a >= 0 {
        a / b
    } else {
        -((-a) / b)
    }
}

/// The sum of a run of samples.
pub open spec fn spec_sum(s: Seq<i16>) -> int
    decreases s.len(),
{
    if s.len() == 0 {
        0
    } else {
        spec_sum(s.drop_last()) + s.last()
    }
}

/// The average of a non-empty run of samples, truncating toward zero.
pub open spec fn spec_avg(s: Seq<i16>) -> int {
    spec_tdiv(spec_sum(s), s.len() as int)
}

/// The number of frames a multi-channel buffer holds, the last frame
/// possibly short.
pub open spec fn spec_frame_count(len: nat, channels: nat) -> nat {
    (((len + channels - 1) as int) / (channels as int)) as nat
}

/// One frame of a multi-channel buffer.
pub open spec fn spec_frame(data: Seq<i16>, channels: nat, i: int) -> Seq<i16> {
    data.subrange(
        i * channels,
        if (i + 1) * channels <= data.len() {
            (i + 1) * channels
        } else {
            data.len() as int
        },
    )
}

/// A multi-channel buffer downmixed to mono: each frame replaced by the
/// average of its channels.
pub open spec fn spec_downmix(data: Seq<i16>, channels: nat) -> Seq<i16> {
    Seq::new(
        spec_frame_count(data.len(), channels),
        |i: int| spec_avg(spec_frame(data, channels, i)) as i16,
    )
}

/// How many samples resampling yields: the length scaled by the rate
/// ratio, rounded up.
pub open spec fn spec_resample_len(m: nat, from: nat, to: nat) -> nat {
    (((m * to + from - 1) as int) / (from as int)) as nat
}

/// The resampled value at one output position: the source position scaled
/// back, linearly interpolated between its two neighbours.
pub open spec fn spec_resample_at(mono: Seq<i16>, from: nat, to: nat, i: int) -> i16 {
    let pos = i * from;
    let idx = pos / (to as int);
    let frac = pos % (to as int);
    if idx + 1 < mono.len() {
        let a = mono[idx] as int;
        let b = mono[idx + 1] as int;
        (a + spec_tdiv((b - a) * frac, to as int)) as i16
    } else if idx < mono.len() {
        mono[idx]
    } else {
        0
    }
}

/// A mono buffer linearly resampled from one rate to another.
pub open spec fn spec_resample(mono: Seq<i16>, from: nat, to: nat) -> Seq<i16> {
    Seq::new(
        spec_resample_len(mono.len(), from, to),
        |i: int| spec_resample_at(mono, from, to, i),
    )
}

/// The resampled length is the length scaled by the rate ratio, rounded
/// up: the least count whose span at the source rate covers the input.
pub proof fn lemma_resample_len_is_ceiling(m: nat, from: nat, to: nat)
    requires
        from >= 1,
    ensures
        spec_resample_len(m, from, to) * from >= m * to,
        m * to > 0 ==> (spec_resample_len(m, from, to) - 1) * from < m * to,
{
    let x = (m * to + from - 1) as int;
    let q = x / (from as int);
    lemma_fundamental_div_mod(x, from as int);
    assert(q * from >= m * to && (m * to > 0 ==> (q - 1) * from < m * to)) by (nonlinear_arith)
        requires
            x == (from as int) * q + x % (from as int),
            0 <= x % (from as int) < from,
            x == m * to + from - 1,
            from >= 1,
            m * to >= 0,
    ;
}

/// Resampling at the source rate returns the input unchanged.
pub proof fn lemma_resample_identity(mono: Seq<i16>, rate: nat)
    requires
        rate >= 1,
    ensures
        spec_resample(mono, rate, rate) == mono,
{
    let m = mono.len();
    assert(spec_resample_len(m, rate, rate) == m) by (nonlinear_arith)
        requires
            rate >= 1,
    ;
    assert forall|i: int| 0 <= i < m implies spec_resample_at(mono, rate, rate, i) == mono[i] by {
        assert(i * rate % (rate as int) == 0 && i * rate / (rate as int) == i) by (nonlinear_arith)
            requires
                rate >= 1,
                0 <= i,
        ;
    }
    assert(spec_resample(mono, rate, rate) =~= mono);
}

/// Downmixing a buffer that is already mono returns it unchanged.
pub proof fn lemma_downmix_mono_identity(data: Seq<i16>)
    ensures
        spec_downmix(data, 1) == data,
{
    assert(spec_frame_count(data.len(), 1) == data.len());
    assert forall|i: int| 0 <= i < data.len() implies spec_avg(spec_frame(data, 1, i)) as i16
        == data[i] by {
        let f = spec_frame(data, 1, i);
        assert(f =~= seq![data[i]]);
        assert(f.len() == 1 && f.last() == data[i]);
        assert(f.drop_last() =~= Seq::<i16>::empty());
        assert(spec_sum(f.drop_last()) == 0);
        assert(spec_sum(f) == data[i] as int);
    }
    assert(spec_downmix(data, 1) =~= data);
}

/// Truncating division of a bounded product stays between zero and the
/// difference, so interpolation never leaves the span of its neighbours.
proof fn lemma_interp_bounds(d: int, frac: int, to: int)
    requires
        0 <= frac < to,
        -65536 < d < 65536,
    ensures
        d >= 0 ==> 0 <= spec_tdiv(d * frac, to) <= d,
        d < 0 ==> d <= spec_tdiv(d * frac, to) <= 0,
{
    if d >= 0 {
        assert(0 <= d * frac && d * frac <= to * d) by (nonlinear_arith)
            requires
                0 <= frac < to,
                d >= 0,
        ;
        lemma_div_pos_is_pos(d * frac, to);
        lemma_multiply_divide_le(d * frac, to, d);
    } else {
        let e = -d;
        assert(0 <= e * frac && e * frac <= to * e && e * frac == -(d * frac))
            by (nonlinear_arith)
            requires
                0 <= frac < to,
                e == -d,
                e > 0,
        ;
        lemma_div_pos_is_pos(e * frac, to);
        lemma_multiply_divide_le(e * frac, to, e);
    }
}

/// Downmix a captured buffer to mono by averaging each frame's channels.
pub fn downmix_to_mono(data: &Vec<i16>, channels: u16) -> (r: Vec<i16>)
    requires
        channels >= 1,
        data@.len() + channels <= usize::MAX,
    ensures
        r@ == spec_downmix(data@, channels as nat),
{
    let n = data.len();
    let ch = channels as usize;
    let ghost goal = spec_downmix(data@, channels as nat);
    let frames = (n + ch - 1) / ch;
    proof {
        assert(goal.len() == frames) by (nonlinear_arith)
            requires
                goal.len() == spec_frame_count(n as nat, channels as nat),
                frames == ((n + ch - 1) as int) / (ch as int),
                ch == channels as int,
                ch >= 1,
                n == data@.len(),
        ;
    }
    let mut out: Vec<i16> = Vec::new();
    let mut i: usize = 0;
    while i < frames
        invariant
            n == data@.len(),
            ch == channels as usize,
            1 <= ch,
            n + ch <= usize::MAX,
            goal == spec_downmix(data@, channels as nat),
            goal.len() == frames,
            frames == ((n + ch - 1) as int) / (ch as int),
            0 <= i <= frames,
            out@ == goal.take(i as int),
        decreases frames - i,
    {
        proof {
            let x = (n + ch - 1) as int;
            let fr = frames as int;
            lemma_fundamental_div_mod(x, ch as int);
            lemma_mul_inequality(i as int, fr - 1, ch as int);
            assert((i as int) * (ch as int) + 1 <= n) by (nonlinear_arith)
                requires
                    (i as int) * (ch as int) <= (fr - 1) * (ch as int),
                    x == (ch as int) * fr + x % (ch as int),
                    x % (ch as int) >= 0,
                    x == n + ch - 1,
                    ch >= 1,
            ;
        }
        let start = i * ch;
        let stop = if start + ch <= n {
            start + ch
        } else {
            n
        };
        let ghost frame = spec_frame(data@, channels as nat, i as int);
        proof {
            assert((i + 1) * (channels as int) == (i as int) * (channels as int) + channels)
                by (nonlinear_arith);
            assert(frame =~= data@.subrange(start as int, stop as int));
        }
        let mut sum: i32 = 0;
        let mut j: usize = start;
        while j < stop
            invariant
                n == data@.len(),
                start <= j <= stop <= n,
                stop - start <= ch <= 65535,
                frame == data@.subrange(start as int, stop as int),
                sum == spec_sum(frame.take(j - start)),
                -32768 * (j - start) <= sum <= 32767 * (j - start),
            decreases stop - j,
        {
            let s = data[j];
            proof {
                let t = frame.take(j + 1 - start);
                assert(t.drop_last() =~= frame.take(j - start));
                assert(t.last() == data@[j as int]);
                assert(-32768 * ((j - start) + 1) <= sum + s <= 32767 * ((j - start) + 1))
                    by (nonlinear_arith)
                    requires
                        -32768 * (j - start) <= sum <= 32767 * (j - start),
                        -32768 <= s <= 32767,
                ;
            }
            sum = sum + s as i32;
            j = j + 1;
        }
        proof {
            assert(frame.take(stop - start) =~= frame);
            assert(stop - start >= 1);
            assert(-32768 <= spec_avg(frame) <= 32767) by (nonlinear_arith)
                requires
                    spec_avg(frame) == spec_tdiv(spec_sum(frame), (stop - start) as int),
                    -32768 * (stop - start) <= spec_sum(frame) <= 32767 * (stop - start),
                    1 <= stop - start,
            ;
        }
        let len32 = (stop - start) as u32;
        let avg: i32 = if sum >= 0 {
            ((sum as u32) / len32) as i32
        } else {
            -((((-sum) as u32) / len32) as i32)
        };
        out.push(avg as i16);
        proof {
            assert(avg == spec_avg(frame));
            assert(goal[i as int] == spec_avg(frame) as i16);
            assert(goal.take(i + 1 as int) =~= goal.take(i as int).push(goal[i as int]));
        }
        i = i + 1;
    }
    proof {
        assert(goal.take(frames as int) =~= goal);
    }
    out
}

/// Linearly resample a mono buffer from one rate to another.  The output
/// holds the input length scaled by the rate ratio, rounded up, and
/// resampling at the source rate returns the input unchanged.
pub fn resample_linear(samples: &Vec<i16>, from_rate: u32, to_rate: u32) -> (r: Vec<i16>)
    requires
        from_rate >= 1,
        to_rate >= 1,
        samples@.len() * to_rate + from_rate <= u64::MAX,
        spec_resample_len(samples@.len() as nat, from_rate as nat, to_rate as nat) <= usize::MAX,
    ensures
        r@ == spec_resample(samples@, from_rate as nat, to_rate as nat),
{
    let m = samples.len();
    if from_rate == to_rate {
        proof {
            lemma_resample_identity(samples@, from_rate as nat);
        }
        return samples.clone();
    }
    let ghost goal = spec_resample(samples@, from_rate as nat, to_rate as nat);
    let out_len_64 = ((m as u64) * (to_rate as u64) + (from_rate as u64) - 1) / (from_rate as u64);
    proof {
        assert(out_len_64 == goal.len());
    }
    let out_len = out_len_64 as usize;
    let mut out: Vec<i16> = Vec::new();
    let mut i: usize = 0;
    while i < out_len
        invariant
            m == samples@.len(),
            from_rate >= 1,
            to_rate >= 1,
            m * to_rate + from_rate <= u64::MAX,
            goal == spec_resample(samples@, from_rate as nat, to_rate as nat),
            goal.len() == out_len,
            0 <= i <= out_len,
            out@ == goal.take(i as int),
        decreases out_len - i,
    {
        proof {
            let x = (m as int) * (to_rate as int) + from_rate - 1;
            let q = x / (from_rate as int);
            assert(q == out_len as int);
            lemma_fundamental_div_mod(x, from_rate as int);
            lemma_mul_inequality(i as int, q - 1, from_rate as int);
            assert((i as int) * (from_rate as int) <= (m as int) * (to_rate as int))
                by (nonlinear_arith)
                requires
                    (i as int) * (from_rate as int) <= (q - 1) * (from_rate as int),
                    x == (from_rate as int) * q + x % (from_rate as int),
                    x % (from_rate as int) >= 0,
                    x == (m as int) * (to_rate as int) + from_rate - 1,
                    from_rate >= 1,
            ;
        }
        let pos: u64 = (i as u64) * (from_rate as u64);
        let idx64: u64 = pos / (to_rate as u64);
        let frac: u64 = pos % (to_rate as u64);
        let val: i16 = if idx64 + 1 < m as u64 {
            let idx = idx64 as usize;
            let a = samples[idx];
            let b = samples[idx + 1];
            let d: i64 = (b as i64) - (a as i64);
            proof {
                assert(-281474976710656 < (d as int) * (frac as int) < 281474976710656)
                    by (nonlinear_arith)
                    requires
                        -65536 < d < 65536,
                        0 <= frac < 4294967296,
                ;
            }
            let prod: i64 = d * (frac as i64);
            let t: i64 = if prod >= 0 {
                ((prod as u64) / (to_rate as u64)) as i64
            } else {
                -((((-prod) as u64) / (to_rate as u64)) as i64)
            };
            proof {
                lemma_interp_bounds(d as int, frac as int, to_rate as int);
                assert(t == spec_tdiv((d as int) * (frac as int), to_rate as int));
            }
            (a as i64 + t) as i16
        } else if idx64 < m as u64 {
            samples[idx64 as usize]
        } else {
            0
        };
        out.push(val);
        proof {
            assert(val == spec_resample_at(samples@, from_rate as nat, to_rate as nat, i as int));
            assert(goal.take(i + 1 as int) =~= goal.take(i as int).push(goal[i as int]));
        }
        i = i + 1;
    }
    proof {
        assert(goal.take(out_len as int) =~= goal);
    }
    out
}

/// One supported input configuration of the capture device.
#[derive(Debug, Clone, Copy, PartialEq, Eq, Structural)]
pub struct StreamConfigOption {
    /// The configuration's channel count.
    pub channels: u16,
    /// The lowest sample rate the configuration spans.
    pub min_rate: u32,
    /// The highest sample rate the configuration spans.
    pub max_rate: u32,
}

/// Whether a configuration spans the target rate.
pub open spec fn spans_target(c: StreamConfigOption, target: u32) -> bool {
    c.min_rate <= target && target <= c.max_rate
}

/// The position of the first configuration satisfying a preference: mono
/// at the target rate when `mono` is asked, else any channel count at the
/// target rate.
pub open spec fn spec_first_config(
    cs: Seq<StreamConfigOption>,
    target: u32,
    mono: bool,
) -> Option<int>
    decreases cs.len(),
{
    if cs.len() == 0 {
        None
    } else if (!mono || cs[0].channels == 1) && spans_target(cs[0], target) {
        Some(0)
    } else {
        match spec_first_config(cs.drop_first(), target, mono) {
            None => None,
            Some(i) => Some(i + 1),
        }
    }
}

proof fn lemma_first_config_found(cs: Seq<StreamConfigOption>, target: u32, mono: bool, i: int)
    requires
        0 <= i < cs.len(),
        forall|k: int|
            0 <= k < i ==> !((!mono || (#[trigger] cs[k]).channels == 1) && spans_target(
                cs[k],
                target,
            )),
        (!mono || cs[i].channels == 1) && spans_target(cs[i], target),
    ensures
        spec_first_config(cs, target, mono) == Some(i),
    decreases i,
{
    if i > 0 {
        let rest = cs.drop_first();
        assert forall|k: int|
            0 <= k < i - 1 implies !((!mono || (#[trigger] rest[k]).channels == 1) && spans_target(
            rest[k],
            target,
        )) by {
            assert(rest[k] == cs[k + 1]);
        }
        assert(rest[i - 1] == cs[i]);
        lemma_first_config_found(rest, target, mono, i - 1);
    }
}

proof fn lemma_first_config_none(cs: Seq<StreamConfigOption>, target: u32, mono: bool)
    requires
        forall|k: int|
            0 <= k < cs.len() ==> !((!mono || (#[trigger] cs[k]).channels == 1) && spans_target(
                cs[k],
                target,
            )),
    ensures
        spec_first_config(cs, target, mono) is None,
    decreases cs.len(),
{
    if cs.len() > 0 {
        let rest = cs.drop_first();
        assert forall|k: int|
            0 <= k < rest.len() implies !((!mono || (#[trigger] rest[k]).channels == 1)
            && spans_target(rest[k], target)) by {
            assert(rest[k] == cs[k + 1]);
        }
        lemma_first_config_none(rest, target, mono);
    }
}

/// The first configuration satisfying a preference, if any.
fn first_config(cs: &Vec<StreamConfigOption>, target: u32, mono: bool) -> (r: Option<usize>)
    ensures
        r matches Some(i) ==> spec_first_config(cs@, target, mono) == Some(i as int) && i
            < cs@.len(),
        r is None ==> spec_first_config(cs@, target, mono) is None,
{
    let n = cs.len();
    let mut i: usize = 0;
    while i < n
        invariant
            n == cs@.len(),
            0 <= i <= n,
            forall|k: int|
                0 <= k < i ==> !((!mono || (#[trigger] cs@[k]).channels == 1) && spans_target(
                    cs@[k],
                    target,
                )),
        decreases n - i,
    {
        let c = cs[i];
        if (!mono || c.channels == 1) && c.min_rate <= target && target <= c.max_rate {
            proof {
                lemma_first_config_found(cs@, target, mono, i as int);
            }
            return Some(i);
        }
        i = i + 1;
    }
    proof {
        lemma_first_config_none(cs@, target, mono);
    }
    None
}

/// Choose an input configuration for the target rate: first an exact mono
/// match, else any configuration spanning the rate, else `None`, on which
/// the caller falls back to the device's own default configuration.
pub fn find_suitable_config(cs: &Vec<StreamConfigOption>, target: u32) -> (r: Option<usize>)
    ensures
        ({
            let mono = spec_first_config(cs@, target, true);
            let any = spec_first_config(cs@, target, false);
            if mono is Some {
                r == Some(mono->Some_0 as usize) && mono->Some_0 < cs@.len()
            } else if any is Some {
                r == Some(any->Some_0 as usize) && any->Some_0 < cs@.len()
            } else {
                r is None
            }
        }),
{
    if let Some(i) = first_config(cs, target, true) {
        return Some(i);
    }
    first_config(cs, target, false)
}

/// The little-endian bytes of a 16-bit value.
pub open spec fn le16(x: u16) -> Seq<u8> {
    seq![(x % 256) as u8, (x / 256) as u8]
}

/// The little-endian bytes of a 32-bit value.
pub open spec fn le32(x: u32) -> Seq<u8> {
    seq![
        (x % 256) as u8,
        ((x / 256) % 256) as u8,
        ((x / 65536) % 256) as u8,
        ((x / 16777216) % 256) as u8,
    ]
}

/// The PCM payload: each sample as two little-endian bytes.
pub open spec fn spec_pcm16(samples: Seq<i16>) -> Seq<u8>
    decreases samples.len(),
{
    if samples.len() == 0 {
        Seq::empty()
    } else {
        spec_pcm16(samples.drop_last()) + le16(samples.last() as u16)
    }
}

/// The 44-byte RIFF/WAVE header for a mono, 16-bit PCM payload of `n`
/// samples at the given rate.
pub open spec fn spec_wav_header(n: nat, rate: u32) -> Seq<u8> {
    "RIFF".spec_bytes() + le32((36 + 2 * n) as u32) + "WAVE".spec_bytes() + "fmt ".spec_bytes()
        + le32(16) + le16(1) + le16(1) + le32(rate) + le32((2 * rate) as u32) + le16(2) + le16(16)
        + "data".spec_bytes() + le32((2 * n) as u32)
}

/// The whole RIFF/WAVE container: header then PCM payload.
pub open spec fn spec_wav(samples: Seq<i16>, rate: u32) -> Seq<u8> {
    spec_wav_header(samples.len(), rate) + spec_pcm16(samples)
}

/// The header is exactly 44 bytes, so the container holds `44 + 2 * n`
/// bytes for `n` samples.
pub proof fn lemma_wav_len(samples: Seq<i16>, rate: u32)
    ensures
        spec_wav_header(samples.len(), rate).len() == 44,
        spec_wav(samples, rate).len() == 44 + 2 * samples.len(),
    decreases samples.len(),
{
    reveal_strlit("RIFF");
    reveal_strlit("WAVE");
    reveal_strlit("fmt ");
    reveal_strlit("data");
    broadcast use vstd::string::is_ascii_spec_bytes;

    assert(is_ascii("RIFF") && is_ascii("WAVE") && is_ascii("fmt ") && is_ascii("data"));
    if samples.len() == 0 {
    } else {
        lemma_wav_len(samples.drop_last(), rate);
        assert(spec_wav_header(samples.drop_last().len(), rate).len() == 44);
    }
}

/// Append the little-endian bytes of a 16-bit value.
fn push_le16(out: &mut Vec<u8>, x: u16)
    ensures
        final(out)@ == old(out)@ + le16(x),
{
    out.push((x % 256) as u8);
    out.push((x / 256) as u8);
    proof {
        assert(final(out)@ =~= old(out)@ + le16(x));
    }
}

/// Append the little-endian bytes of a 32-bit value.
fn push_le32(out: &mut Vec<u8>, x: u32)
    ensures
        final(out)@ == old(out)@ + le32(x),
{
    out.push((x % 256) as u8);
    out.push(((x / 256) % 256) as u8);
    out.push(((x / 65536) % 256) as u8);
    out.push(((x / 16777216) % 256) as u8);
    proof {
        assert(final(out)@ =~= old(out)@ + le32(x));
    }
}

/// Append the bytes of a string literal.
fn push_tag(out: &mut Vec<u8>, tag: &str)
    ensures
        final(out)@ == old(out)@ + tag.spec_bytes(),
{
    let bytes = tag.as_bytes();
    let n = bytes.len();
    let mut i: usize = 0;
    while i < n
        invariant
            n == bytes@.len(),
            bytes@ == tag.spec_bytes(),
            0 <= i <= n,
            out@ == old(out)@ + bytes@.take(i as int),
        decreases n - i,
    {
        let b = bytes[i];
        out.push(b);
        proof {
            assert(bytes@.take(i + 1 as int) =~= bytes@.take(i as int).push(bytes@[i as int]));
        }
        i = i + 1;
    }
    proof {
        assert(bytes@.take(n as int) =~= bytes@);
    }
}

/// Serialize mono 16-bit samples as an uncompressed RIFF/WAVE container at
/// the given sample rate.
pub fn samples_to_wav(samples: &Vec<i16>, sample_rate: u32) -> (r: Vec<u8>)
    requires
        2 * samples@.len() + 36 <= u32::MAX,
        2 * sample_rate <= u32::MAX,
    ensures
        r@ == spec_wav(samples@, sample_rate),
        r@.len() == 44 + 2 * samples@.len(),
{
    let n = samples.len();
    let data_size: u32 = (n as u32) * 2;
    let mut wav: Vec<u8> = Vec::new();
    push_tag(&mut wav, "RIFF");
    push_le32(&mut wav, data_size + 36);
    push_tag(&mut wav, "WAVE");
    push_tag(&mut wav, "fmt ");
    push_le32(&mut wav, 16);
    push_le16(&mut wav, 1);
    push_le16(&mut wav, CHANNELS);
    push_le32(&mut wav, sample_rate);
    push_le32(&mut wav, sample_rate * 2);
    push_le16(&mut wav, 2);
    push_le16(&mut wav, 16);
    push_tag(&mut wav, "data");
    push_le32(&mut wav, data_size);
    let ghost header = spec_wav_header(samples@.len(), sample_rate);
    proof {
        assert(wav@ == header);
    }
    let mut i: usize = 0;
    while i < n
        invariant
            n == samples@.len(),
            header == spec_wav_header(samples@.len(), sample_rate),
            0 <= i <= n,
            wav@ == header + spec_pcm16(samples@.take(i as int)),
        decreases n - i,
    {
        let u = samples[i] as u16;
        push_le16(&mut wav, u);
        proof {
            let t = samples@.take(i + 1 as int);
            assert(t.drop_last() =~= samples@.take(i as int));
            assert(t.last() == samples@[i as int]);
        }
        i = i + 1;
    }
    proof {
        assert(samples@.take(n as int) =~= samples@);
        lemma_wav_len(samples@, sample_rate);
    }
    wav
}

/// The value four little-endian bytes encode.
pub open spec fn le32_value(b0: u8, b1: u8, b2: u8, b3: u8) -> int {
    b0 + 256 * b1 + 65536 * b2 + 16777216 * b3
}

/// Four little-endian bytes decode back to the value they encode.
proof fn lemma_le32_round_trip(x: u32)
    ensures
        le32_value(
            (x % 256) as u8,
            ((x / 256) % 256) as u8,
            ((x / 65536) % 256) as u8,
            ((x / 16777216) % 256) as u8,
        ) == x,
{
    lemma_fundamental_div_mod(x as int, 256);
    lemma_fundamental_div_mod(x as int / 256, 256);
    lemma_fundamental_div_mod(x as int / 65536, 256);
    lemma_div_denominator(x as int, 256, 256);
    lemma_div_denominator(x as int, 65536, 256);
}

/// Re-reading the header of an encoded container reports what was
/// written: the RIFF and WAVE magics stand at the front, and the
/// data-size field holds two bytes per sample.
pub proof fn lemma_wav_header_round_trip(samples: Seq<i16>, rate: u32)
    requires
        2 * samples.len() + 36 <= u32::MAX,
    ensures
        ({
            let w = spec_wav(samples, rate);
            &&& w.len() == 44 + 2 * samples.len()
            &&& w.subrange(0, 4) == "RIFF".spec_bytes()
            &&& w.subrange(8, 12) == "WAVE".spec_bytes()
            &&& le32_value(w[40], w[41], w[42], w[43]) == 2 * samples.len()
        }),
{
    reveal_strlit("RIFF");
    reveal_strlit("WAVE");
    reveal_strlit("fmt ");
    reveal_strlit("data");
    broadcast use vstd::string::is_ascii_spec_bytes;

    assert(is_ascii("RIFF") && is_ascii("WAVE") && is_ascii("fmt ") && is_ascii("data"));
    lemma_wav_len(samples, rate);
    let n = samples.len();
    let header = spec_wav_header(n, rate);
    let w = spec_wav(samples, rate);
    assert(w.subrange(0, 4) =~= "RIFF".spec_bytes());
    assert(w.subrange(8, 12) =~= "WAVE".spec_bytes());
    let size = le32((2 * n) as u32);
    assert(header[40] == size[0] && header[41] == size[1] && header[42] == size[2] && header[43]
        == size[3]);
    lemma_le32_round_trip((2 * n) as u32);
}

/// Why an audio pipeline request was refused.
#[derive(Debug, Clone, Copy, PartialEq, Eq, Structural)]
pub enum AudioError {
    /// `start_recording` while a session is active.
    AlreadyRecording,
    /// `stop_recording` without an active session.
    NotRecording,
    /// A session ended with zero captured samples.
    EmptyRecording,
}

impl AudioError {
    /// The error string the caller reports.
    pub open spec fn spec_message(self) -> Seq<char> {
        match self {
            AudioError::AlreadyRecording => "Already recording"@,
            AudioError::NotRecording => "Not recording"@,
            AudioError::EmptyRecording => "No audio data recorded"@,
        }
    }

    pub fn message(&self) -> (r: &'static str)
        ensures
            r@ == self.spec_message(),
    {
        match self {
            AudioError::AlreadyRecording => "Already recording",
            AudioError::NotRecording => "Not recording",
            AudioError::EmptyRecording => "No audio data recorded",
        }
    }
}

/// A finished recording: the encoded container and its bookkeeping.
#[derive(Debug, Clone)]
pub struct EncodedRecording {
    /// The RIFF/WAVE bytes; the surrounding application writes them to a
    /// uniquely named temporary file.
    pub wav: Vec<u8>,
    /// The artifact's sample rate.
    pub sample_rate: u32,
    /// How many samples were captured.
    pub sample_count: usize,
    /// The artifact's duration in milliseconds.
    pub duration_ms: u64,
}

/// A recording session: the recording flag and the shared sample buffer.
/// The capture thread appends processed frames while the flag is set; stop
/// drains the buffer into an encoded artifact.
pub struct AudioRecorder {
    /// A session is active.
    pub recording: bool,
    /// The captured mono samples at the target rate, append-only while
    /// recording.
    pub buffer: Vec<i16>,
}

impl AudioRecorder {
    /// A fresh recorder with no active session.
    pub fn new() -> (r: AudioRecorder)
        ensures
            !r.recording,
            r.buffer@ == Seq::<i16>::empty(),
    {
        AudioRecorder { recording: false, buffer: Vec::new() }
    }

    /// Whether a session is active.
    pub fn is_recording(&self) -> (r: bool)
        ensures
            r == self.recording,
    {
        self.recording
    }

    /// Start a session: refused while one is active; otherwise the buffer
    /// is cleared and the flag set before the capture thread is spawned.
    pub fn start_recording(&mut self) -> (r: Result<(), AudioError>)
        ensures
            r is Ok <==> !old(self).recording,
            r is Ok ==> final(self).recording && final(self).buffer@ == Seq::<i16>::empty(),
            r is Err ==> *final(self) == *old(self) && r == Err::<(), AudioError>(
                AudioError::AlreadyRecording,
            ),
    {
        if self.recording {
            return Err(AudioError::AlreadyRecording);
        }
        self.buffer.clear();
        self.recording = true;
        Ok(())
    }

    /// Append processed frames from the capture callback.  Frames arriving
    /// after the flag was cleared are dropped, so an externally aborted
    /// session stops growing at once.
    pub fn append_samples(&mut self, processed: &Vec<i16>)
        ensures
            old(self).recording ==> final(self).recording && final(self).buffer@ == old(
                self,
            ).buffer@ + processed@,
            !old(self).recording ==> *final(self) == *old(self),
    {
        if self.recording {
            let n = processed.len();
            let mut i: usize = 0;
            while i < n
                invariant
                    n == processed@.len(),
                    0 <= i <= n,
                    self.recording == old(self).recording,
                    self.buffer@ == old(self).buffer@ + processed@.take(i as int),
                decreases n - i,
            {
                let s = processed[i];
                self.buffer.push(s);
                proof {
                    assert(processed@.take(i + 1 as int) =~= processed@.take(i as int).push(
                        processed@[i as int],
                    ));
                }
                i = i + 1;
            }
            proof {
                assert(processed@.take(n as int) =~= processed@);
            }
        }
    }

    /// Stop the session and encode the captured samples.  Refused without
    /// an active session; a session that captured nothing is reported as
    /// empty before any encoding, and the session ends either way.
    pub fn stop_recording(&mut self, sample_rate: u32) -> (r: Result<EncodedRecording, AudioError>)
        requires
            1 <= sample_rate,
            2 * sample_rate <= u32::MAX,
            2 * old(self).buffer@.len() + 36 <= u32::MAX,
        ensures
            !old(self).recording ==> r == Err::<EncodedRecording, AudioError>(
                AudioError::NotRecording,
            ) && *final(self) == *old(self),
            old(self).recording && old(self).buffer@.len() == 0 ==> r == Err::<
                EncodedRecording,
                AudioError,
            >(AudioError::EmptyRecording),
            old(self).recording && old(self).buffer@.len() > 0 ==> (r matches Ok(enc) && {
                &&& enc.wav@ == spec_wav(old(self).buffer@, sample_rate)
                &&& enc.sample_rate == sample_rate
                &&& enc.sample_count == old(self).buffer@.len()
                &&& enc.duration_ms == (old(self).buffer@.len() * 1000) as int / (
                sample_rate as int)
            }),
            old(self).recording ==> !final(self).recording && final(self).buffer@ == Seq::<
                i16,
            >::empty(),
    {
        if !self.recording {
            return Err(AudioError::NotRecording);
        }
        self.recording = false;
        if self.buffer.len() == 0 {
            return Err(AudioError::EmptyRecording);
        }
        let sample_count = self.buffer.len();
        let wav = samples_to_wav(&self.buffer, sample_rate);
        self.buffer.clear();
        let duration_ms = ((sample_count as u64) * 1000) / (sample_rate as u64);
        Ok(EncodedRecording { wav, sample_rate, sample_count, duration_ms })
    }
}

/// Convert captured frames to the artifact's format: downmix to mono, then
/// resample to the target rate.  Frames already mono at the target rate
/// pass through unchanged.
pub fn process_audio_data(data: &Vec<i16>, src_rate: u32, channels: u16, target_rate: u32) -> (r:
    Vec<i16>)
    requires
        src_rate >= 1,
        target_rate >= 1,
        channels >= 1,
        data@.len() + channels <= usize::MAX,
        data@.len() * target_rate + src_rate <= u64::MAX,
        spec_resample_len(
            spec_frame_count(data@.len() as nat, channels as nat),
            src_rate as nat,
            target_rate as nat,
        ) <= usize::MAX,
    ensures
        r@ == spec_resample(
            spec_downmix(data@, channels as nat),
            src_rate as nat,
            target_rate as nat,
        ),
        channels == 1 && src_rate == target_rate ==> r@ == data@,
{
    let mono = downmix_to_mono(data, channels);
    proof {
        assert(mono@.len() <= data@.len()) by (nonlinear_arith)
            requires
                mono@.len() == (data@.len() + channels - 1) as int / (channels as int),
                channels >= 1,
                data@.len() >= 0,
        ;
        if channels == 1 {
            lemma_downmix_mono_identity(data@);
        }
        assert(mono@.len() * target_rate <= data@.len() * target_rate) by (nonlinear_arith)
            requires
                0 <= mono@.len() <= data@.len(),
                target_rate >= 0,
        ;
        if src_rate == target_rate {
            lemma_resample_identity(mono@, src_rate as nat);
        }
    }
    resample_linear(&mono, src_rate, target_rate)
}

} // verus!
