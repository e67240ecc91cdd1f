//! Verified sample processing: linear-interpolation resampling, channel
//! downmixing, and the streaming decimator the live capture path uses.
//!
//! Samples are 16-bit PCM units; the application shell quantizes device
//! samples at this boundary and hands plain sample vectors in.

use vstd::prelude::*;
use vstd::string::StringExecFns;
use vstd::arithmetic::div_mod::{
    lemma_div_is_ordered, lemma_div_multiples_vanish, lemma_fundamental_div_mod,
    lemma_fundamental_div_mod_converse,
};
use crate::errors::CoreError;

verus! {

/// Lifecycle of the batch recorder.  The device stream and the captured
/// samples live in the application shell; whether a recording may start
/// or stop, and which error the caller sees, is decided here.
pub struct RecorderState {
    active: bool,
}

impl RecorderState {
    /// Whether a recording is active.
    pub closed spec fn spec_active(&self) -> bool {
        self.active
    }

    /// No recording is active yet.
    pub fn new() -> (r: Self)
        ensures
            !r.spec_active(),
    {
        RecorderState { active: false }
    }

    pub fn is_active(&self) -> (r: bool)
        ensures
            r == self.spec_active(),
    {
        self.active
    }

    /// Begin a recording.  Starting while one is already active is an
    /// error and changes nothing.
    pub fn start(&mut self) -> (r: Result<(), CoreError>)
        ensures
            old(self).spec_active() ==> r == Err::<(), CoreError>(
                CoreError::RecordingAlreadyActive,
            ) && final(self).spec_active(),
            !old(self).spec_active() ==> r is Ok && final(self).spec_active(),
    {
        if self.active {
            return Err(CoreError::RecordingAlreadyActive);
        }
        self.active = true;
        Ok(())
    }

    /// Roll a started recording back when the capture device could not be
    /// opened, so no recording counts as active.
    pub fn cancel_start(&mut self)
        ensures
            !final(self).spec_active(),
    {
        self.active = false;
    }

    /// End the recording, given how many samples the device delivered.
    /// Stopping while none is active is an error; an active recording
    /// that captured nothing fails as a capture error; otherwise the
    /// recording ends cleanly.  Either way no recording is active after.
    pub fn stop(&mut self, n_captured: usize) -> (r: Result<(), CoreError>)
        ensures
            !final(self).spec_active(),
            !old(self).spec_active() ==> r == Err::<(), CoreError>(CoreError::RecordingNotActive),
            old(self).spec_active() && n_captured == 0 ==> (r matches Err(e) && e matches
                CoreError::AudioCapture(m) && m@ == "No audio captured"@),
            old(self).spec_active() && n_captured > 0 ==> r is Ok,
    {
        if !self.active {
            return Err(CoreError::RecordingNotActive);
        }
        self.active = false;
        if n_captured == 0 {
            return Err(CoreError::AudioCapture(String::from_str("No audio captured")));
        }
        Ok(())
    }
}

/// Linear interpolation between `s0` and `s1` at fraction `rem / den`,
/// rounded toward `s0`.
pub open spec fn lerp(s0: int, s1: int, rem: int, den: int) -> int
    recommends
        0 <= rem < den,
{
    if s1 >= s0 {
        s0 + (s1 - s0) * rem / den
    } else {
        s0 - (s0 - s1) * rem / den
    }
}

/// The `i`-th output sample of linear resampling from `src` to `dst`:
/// the source position is `i * src / dst` samples, and the output
/// interpolates between the two source samples around it.  Past the end
/// the first neighbour counts as silence and the second repeats the first.
pub open spec fn resampled_at(input: Seq<i16>, src: int, dst: int, i: int) -> int
    recommends
        src >= 1,
        dst >= 1,
        i >= 0,
{
    let num = i * src;
    let idx = num / dst;
    let rem = num % dst;
    let s0: int = if idx < input.len() {
        input[idx] as int
    } else {
        0
    };
    let s1: int = if idx + 1 < input.len() {
        input[idx + 1] as int
    } else {
        s0
    };
    lerp(s0, s1, rem, dst)
}

/// Interpolating between two sample values stays between them.
proof fn lemma_lerp_bounds(s0: int, s1: int, rem: int, den: int)
    requires
        0 <= rem < den,
    ensures
        if s1 >= s0 {
            s0 <= lerp(s0, s1, rem, den) <= s1
        } else {
            s1 <= lerp(s0, s1, rem, den) <= s0
        },
{
    if s1 >= s0 {
        let d = s1 - s0;
        assert(0 <= d * rem <= d * den) by (nonlinear_arith)
            requires
                0 <= rem < den,
                d >= 0,
        ;
        vstd::arithmetic::div_mod::lemma_div_pos_is_pos(d * rem, den);
        lemma_div_is_ordered(d * rem, d * den, den);
        lemma_div_multiples_vanish(d, den);
        vstd::arithmetic::mul::lemma_mul_is_commutative(d, den);
        assert(d * rem / den <= d);
    } else {
        let d = s0 - s1;
        assert(0 <= d * rem <= d * den) by (nonlinear_arith)
            requires
                0 <= rem < den,
                d >= 0,
        ;
        vstd::arithmetic::div_mod::lemma_div_pos_is_pos(d * rem, den);
        lemma_div_is_ordered(d * rem, d * den, den);
        lemma_div_multiples_vanish(d, den);
        vstd::arithmetic::mul::lemma_mul_is_commutative(d, den);
        assert(d * rem / den <= d);
    }
}

/// Resample by linear interpolation.  With an empty input or equal rates
/// the input comes back unchanged; otherwise the output holds exactly
/// `floor(len * dst_rate / src_rate)` samples, each interpolated at its
/// source position, and the first output sample equals the first input
/// sample.
pub fn resample_linear(input: &Vec<i16>, src_rate: u32, dst_rate: u32) -> (out: Vec<i16>)
    requires
        src_rate >= 1,
        dst_rate >= 1,
        input@.len() * src_rate <= i64::MAX,
        input@.len() * dst_rate <= i64::MAX,
        input@.len() * dst_rate / (src_rate as int) <= usize::MAX,
    ensures
        (input@.len() == 0 || src_rate == dst_rate) ==> out@ == input@,
        !(input@.len() == 0 || src_rate == dst_rate) ==> {
            &&& out@.len() == input@.len() * dst_rate / (src_rate as int)
            &&& forall|i: int|
                0 <= i < out@.len() ==> #[trigger] out@[i] as int == resampled_at(
                    input@,
                    src_rate as int,
                    dst_rate as int,
                    i,
                )
        },
        input@.len() > 0 && out@.len() > 0 ==> out@[0] == input@[0],
{
    let n: usize = input.len();
    if n == 0 || src_rate == dst_rate {
        let mut copy: Vec<i16> = Vec::new();
        let mut i: usize = 0;
        while i < n
            invariant
                i <= n,
                n == input@.len(),
                copy@ == input@.subrange(0, i as int),
            decreases n - i,
        {
            copy.push(input[i]);
            proof {
                assert(copy@ =~= input@.subrange(0, i + 1));
            }
            i += 1;
        }
        proof {
            assert(input@.subrange(0, n as int) =~= input@);
        }
        return copy;
    }
    let src64: u64 = src_rate as u64;
    let dst64: u64 = dst_rate as u64;
    let out_len_u64: u64 = (n as u64) * dst64 / src64;
    let out_len: usize = out_len_u64 as usize;
    let ghost src = src_rate as int;
    let ghost dst = dst_rate as int;
    let mut out: Vec<i16> = Vec::new();
    let mut i: usize = 0;
    while i < out_len
        invariant
            i <= out_len,
            n == input@.len(),
            src == src_rate as int,
            dst == dst_rate as int,
            src64 == src_rate as u64,
            dst64 == dst_rate as u64,
            1 <= src <= u32::MAX,
            1 <= dst <= u32::MAX,
            n * src <= i64::MAX,
            n * dst <= i64::MAX,
            out_len == n * dst / src,
            out@.len() == i,
            forall|j: int|
                0 <= j < i ==> #[trigger] out@[j] as int == resampled_at(input@, src, dst, j),
        decreases out_len - i,
    {
        proof {
            // i < floor(n*dst/src) implies i*src < n*dst, so the source
            // position always lies inside the input.
            lemma_fundamental_div_mod(n * dst, src);
            assert((i as int) * src <= (n * dst / src - 1) * src) by (nonlinear_arith)
                requires
                    i < n * dst / src,
                    src >= 1,
            ;
            assert((n * dst / src - 1) * src == (n * dst / src) * src - src) by (nonlinear_arith);
            assert((i as int) * src < n * dst);
        }
        let num: u64 = (i as u64) * src64;
        let idx_u: u64 = num / dst64;
        let rem: u64 = num % dst64;
        proof {
            lemma_fundamental_div_mod(num as int, dst);
            assert((num as int) <= n * dst - 1);
            lemma_div_is_ordered(num as int, n * dst - 1, dst);
            assert((n - 1) * dst == n * dst - dst) by (nonlinear_arith);
            lemma_fundamental_div_mod_converse(n * dst - 1, dst, n - 1, dst - 1);
            assert(idx_u < n);
        }
        let idx: usize = idx_u as usize;
        let s0: i16 = input[idx];
        let s1: i16 = if idx + 1 < n {
            input[idx + 1]
        } else {
            s0
        };
        let v: i16 = if s1 >= s0 {
            let d: i64 = (s1 as i64) - (s0 as i64);
            proof {
                lemma_lerp_bounds(s0 as int, s1 as int, rem as int, dst);
                assert(d * (rem as int) <= d * dst) by (nonlinear_arith)
                    requires
                        0 <= rem < dst,
                        d >= 0,
                ;
                assert(d * dst <= 65536 * 4294967296int) by (nonlinear_arith)
                    requires
                        0 <= d <= 65536,
                        0 <= dst <= 4294967296int,
                ;
            }
            (s0 as i64 + d * (rem as i64) / (dst_rate as i64)) as i16
        } else {
            let d: i64 = (s0 as i64) - (s1 as i64);
            proof {
                lemma_lerp_bounds(s0 as int, s1 as int, rem as int, dst);
                assert(d * (rem as int) <= d * dst) by (nonlinear_arith)
                    requires
                        0 <= rem < dst,
                        d >= 0,
                ;
                assert(d * dst <= 65536 * 4294967296int) by (nonlinear_arith)
                    requires
                        0 <= d <= 65536,
                        0 <= dst <= 4294967296int,
                ;
            }
            (s0 as i64 - d * (rem as i64) / (dst_rate as i64)) as i16
        };
        proof {
            assert(v as int == resampled_at(input@, src, dst, i as int));
        }
        out.push(v);
        i += 1;
    }
    proof {
        if out@.len() > 0 {
            assert(out@[0] as int == resampled_at(input@, src, dst, 0));
            assert(0int * src == 0) by (nonlinear_arith);
            lemma_fundamental_div_mod_converse(0, dst, 0, 0);
            assert(0int / dst == 0 && 0int % dst == 0);
            let s0: int = input@[0] as int;
            let s1: int = if 1 < input@.len() {
                input@[1] as int
            } else {
                s0
            };
            assert(lerp(s0, s1, 0, dst) == s0) by {
                if s1 >= s0 {
                    assert((s1 - s0) * 0 == 0) by (nonlinear_arith);
                } else {
                    assert((s0 - s1) * 0 == 0) by (nonlinear_arith);
                }
            }
            assert(resampled_at(input@, src, dst, 0) == input@[0] as int);
        }
    }
    out
}

/// The sum of a frame of samples.
pub open spec fn frame_sum(frame: Seq<i16>) -> int
    decreases frame.len(),
{
    if frame.len() == 0 {
        0
    } else {
        frame[0] + frame_sum(frame.drop_first())
    }
}

/// The mean of one interleaved frame, dividing by the full channel count
/// (also for a trailing partial frame) and rounding toward zero.
pub open spec fn frame_avg(frame: Seq<i16>, channels: int) -> int
    recommends
        channels >= 1,
{
    let s = frame_sum(frame);
    if s >= 0 {
        s / channels
    } else {
        -((-s) / channels)
    }
}

/// The `j`-th frame of interleaved data: `channels` samples starting at
/// `j * channels`, fewer for a trailing partial frame.
pub open spec fn frame_at(data: Seq<i16>, channels: int, j: int) -> Seq<i16> {
    data.subrange(
        j * channels,
        if (j + 1) * channels <= data.len() {
            (j + 1) * channels
        } else {
            data.len() as int
        },
    )
}

proof fn lemma_frame_sum_bounds(frame: Seq<i16>)
    ensures
        -32768 * frame.len() <= frame_sum(frame) <= 32767 * frame.len(),
    decreases frame.len(),
{
    if frame.len() > 0 {
        lemma_frame_sum_bounds(frame.drop_first());
    }
}

proof fn lemma_frame_avg_fits(frame: Seq<i16>, channels: int)
    requires
        channels >= 1,
        frame.len() <= channels,
    ensures
        -32768 <= frame_avg(frame, channels) <= 32767,
{
    lemma_frame_sum_bounds(frame);
    let s = frame_sum(frame);
    if s >= 0 {
        assert(s <= 32767 * channels) by (nonlinear_arith)
            requires
                s <= 32767 * frame.len(),
                frame.len() <= channels,
        ;
        lemma_div_is_ordered(s, 32767 * channels, channels);
        lemma_div_multiples_vanish(32767, channels);
        vstd::arithmetic::div_mod::lemma_div_pos_is_pos(s, channels);
    } else {
        assert(-s <= 32768 * channels) by (nonlinear_arith)
            requires
                s >= -32768 * frame.len(),
                frame.len() <= channels,
        ;
        lemma_div_is_ordered(-s, 32768 * channels, channels);
        lemma_div_multiples_vanish(32768, channels);
        vstd::arithmetic::div_mod::lemma_div_pos_is_pos(-s, channels);
    }
}

/// Downmix interleaved multi-channel samples to mono by averaging each
/// frame; a trailing partial frame still divides by the full channel
/// count, exactly as the capture path does.
pub fn downmix_channels(data: &Vec<i16>, channels: u16) -> (out: Vec<i16>)
    requires
        channels >= 1,
    ensures
        out@.len() == (data@.len() + channels - 1) / (channels as int),
        forall|j: int|
            0 <= j < out@.len() ==> #[trigger] out@[j] as int == frame_avg(
                frame_at(data@, channels as int, j),
                channels as int,
            ),
{
    let n: usize = data.len();
    let ch: usize = channels as usize;
    let mut out: Vec<i16> = Vec::new();
    let mut pos: usize = 0;
    let mut j: usize = 0;
    while pos < n
        invariant
            1 <= ch <= u16::MAX,
            ch == channels as int,
            n == data@.len(),
            pos <= n,
            if j * ch <= n {
                pos == j * ch
            } else {
                pos == n && (j - 1) * ch < n
            },
            j <= pos,
            out@.len() == j,
            forall|k: int|
                0 <= k < j ==> #[trigger] out@[k] as int == frame_avg(
                    frame_at(data@, ch as int, k),
                    ch as int,
                ),
        decreases n - pos,
    {
        proof {
            // the previous frame was full, else the loop would have ended
            if j * ch > n {
                assert(pos == n);
                assert(false);
            }
        }
        let frame_end: usize = if n - pos >= ch {
            pos + ch
        } else {
            n
        };
        let ghost frame = frame_at(data@, ch as int, j as int);
        proof {
            assert((j + 1) * ch == j * ch + ch) by (nonlinear_arith);
            assert(frame =~= data@.subrange(pos as int, frame_end as int));
        }
        let mut sum: i64 = 0;
        let mut k: usize = pos;
        while k < frame_end
            invariant
                pos <= k <= frame_end <= n,
                n == data@.len(),
                frame_end - pos <= ch,
                ch <= u16::MAX,
                frame == data@.subrange(pos as int, frame_end as int),
                sum == frame_sum(frame.subrange(0, k - pos)),
                -32768 * (k - pos) <= sum <= 32767 * (k - pos),
            decreases frame_end - k,
        {
            proof {
                lemma_frame_sum_snoc(frame.subrange(0, k - pos), data@[k as int]);
                assert(frame.subrange(0, k - pos).push(data@[k as int]) =~= frame.subrange(
                    0,
                    k - pos + 1,
                ));
            }
            sum = sum + data[k] as i64;
            k += 1;
        }
        proof {
            assert(frame.subrange(0, frame_end - pos) =~= frame);
            lemma_frame_avg_fits(frame, ch as int);
        }
        let avg: i64 = if sum >= 0 {
            sum / (ch as i64)
        } else {
            -((-sum) / (ch as i64))
        };
        out.push(avg as i16);
        pos = frame_end;
        j += 1;
        proof {
            assert(j * ch == (j - 1) * ch + ch) by (nonlinear_arith);
        }
    }
    proof {
        if j * ch <= n {
            assert(pos == j * ch && pos >= n);
            assert((j - 1) * ch == j * ch - ch) by (nonlinear_arith);
        }
        lemma_downmix_len(n as int, ch as int, j as int);
    }
    out
}

proof fn lemma_frame_sum_snoc(frame: Seq<i16>, x: i16)
    ensures
        frame_sum(frame.push(x)) == frame_sum(frame) + x,
    decreases frame.len(),
{
    if frame.len() == 0 {
        assert(frame.push(x).len() == 1);
        assert(frame.push(x)[0] == x);
        assert(frame.push(x).drop_first() =~= Seq::<i16>::empty());
        assert(frame_sum(Seq::<i16>::empty()) == 0);
        assert(frame_sum(frame.push(x)) == x + frame_sum(frame.push(x).drop_first()));
    } else {
        assert(frame.push(x).drop_first() =~= frame.drop_first().push(x));
        lemma_frame_sum_snoc(frame.drop_first(), x);
    }
}

/// The streaming decimator of the live capture path: for every source
/// sample the accumulator advances by the target rate, and one sample is
/// kept whenever it crosses the source rate.  The ghost counters record
/// how many samples went in and came out.
pub struct LiveDownsampler {
    src_rate: u32,
    dst_rate: u32,
    acc: u64,
    samples_in: Ghost<int>,
    samples_out: Ghost<int>,
}

impl LiveDownsampler {
    pub closed spec fn spec_src_rate(&self) -> int {
        self.src_rate as int
    }

    pub closed spec fn spec_dst_rate(&self) -> int {
        self.dst_rate as int
    }

    pub closed spec fn spec_acc(&self) -> int {
        self.acc as int
    }

    /// How many source samples have been pushed.
    pub closed spec fn spec_samples_in(&self) -> int {
        self.samples_in@
    }

    /// How many samples have been kept.
    pub closed spec fn spec_samples_out(&self) -> int {
        self.samples_out@
    }

    /// The accumulator is exactly the remainder of the consumed samples'
    /// target positions against the source rate.
    pub open spec fn wf(&self) -> bool {
        &&& 1 <= self.spec_dst_rate() <= self.spec_src_rate()
        &&& 0 <= self.spec_samples_in()
        &&& 0 <= self.spec_samples_out()
        &&& self.spec_acc() == self.spec_samples_in() * self.spec_dst_rate()
            - self.spec_samples_out() * self.spec_src_rate()
        &&& 0 <= self.spec_acc() < self.spec_src_rate()
    }

    /// A fresh decimator from `src_rate` down to `dst_rate`.
    pub fn new(src_rate: u32, dst_rate: u32) -> (r: Self)
        requires
            1 <= dst_rate <= src_rate,
        ensures
            r.wf(),
            r.spec_src_rate() == src_rate,
            r.spec_dst_rate() == dst_rate,
            r.spec_samples_in() == 0,
            r.spec_samples_out() == 0,
    {
        LiveDownsampler {
            src_rate,
            dst_rate,
            acc: 0,
            samples_in: Ghost(0int),
            samples_out: Ghost(0int),
        }
    }

    /// Feed one source sample; the result says whether this sample is kept
    /// for the target stream.
    pub fn push_sample(&mut self, sample: i16) -> (r: Option<i16>)
        requires
            old(self).wf(),
        ensures
            final(self).wf(),
            final(self).spec_src_rate() == old(self).spec_src_rate(),
            final(self).spec_dst_rate() == old(self).spec_dst_rate(),
            final(self).spec_samples_in() == old(self).spec_samples_in() + 1,
            r is Some <==> old(self).spec_acc() + old(self).spec_dst_rate() >= old(
                self,
            ).spec_src_rate(),
            r is Some ==> r == Some(sample) && final(self).spec_samples_out() == old(
                self,
            ).spec_samples_out() + 1,
            r is None ==> final(self).spec_samples_out() == old(self).spec_samples_out(),
    {
        proof {
            let n_in = old(self).spec_samples_in();
            let dst = old(self).spec_dst_rate();
            assert((n_in + 1) * dst == n_in * dst + dst) by (nonlinear_arith);
        }
        self.acc = self.acc + self.dst_rate as u64;
        proof {
            self.samples_in@ = self.samples_in@ + 1;
        }
        if self.acc >= self.src_rate as u64 {
            self.acc = self.acc - self.src_rate as u64;
            proof {
                let n_out = old(self).spec_samples_out();
                let src = old(self).spec_src_rate();
                assert((n_out + 1) * src == n_out * src + src) by (nonlinear_arith);
                self.samples_out@ = self.samples_out@ + 1;
            }
            Some(sample)
        } else {
            None
        }
    }
}

/// After any number of pushed samples, the decimator has kept exactly
/// `floor(samples_in * dst_rate / src_rate)` of them — the same count the
/// batch resampler produces for that many samples.
pub proof fn lemma_downsampler_output_count(d: LiveDownsampler)
    requires
        d.wf(),
    ensures
        d.spec_samples_out() == d.spec_samples_in() * d.spec_dst_rate() / d.spec_src_rate(),
{
    lemma_fundamental_div_mod_converse(
        d.spec_samples_in() * d.spec_dst_rate(),
        d.spec_src_rate(),
        d.spec_samples_out(),
        d.spec_acc(),
    );
}

proof fn lemma_downmix_len(n: int, ch: int, j: int)
    requires
        ch >= 1,
        n >= 0,
        j >= 0,
        (j - 1) * ch < n <= j * ch,
    ensures
        j == (n + ch - 1) / ch,
{
    assert((j - 1) * ch == j * ch - ch) by (nonlinear_arith);
    lemma_fundamental_div_mod_converse(n + ch - 1, ch, j, n + ch - 1 - j * ch);
}

} // verus!
