//! What is done with single samples and frames of them, and what the echo canceller
//! accepts.

use crate::echo_cancellation::{EchoCancelError, EchoCanceler, EchoConfig, EchoStep};
use crate::sample::{
    all_finite, all_zero, excess_bits, is_finite, joined, quantize, quantize_frame, represents,
    round_half_even, sample_of, samples_of, scale, significand, silence,
};
use vstd::arithmetic::div_mod::{lemma_div_denominator, lemma_fundamental_div_mod};
use vstd::arithmetic::power2::{
    lemma2_to64, lemma_pow2_adds, lemma_pow2_pos, lemma_pow2_strictly_increases,
    lemma_pow2_unfold, pow2,
};
use vstd::prelude::*;
use vstd::string::*;

verus! {

/// The magnitude of a finite sample, counted in the smallest positive sample,
/// `2^-149`.
pub open spec fn magnitude(bits: u32) -> nat {
    let e = (bits / 0x80_0000) % 0x100;
    let f = bits % 0x80_0000;
    if e == 0 {
        f as nat
    } else {
        ((f + 0x80_0000) as nat) * pow2((e - 1) as nat)
    }
}

/// Whether a bit pattern is that of a number.
pub open spec fn is_number(bits: u32) -> bool {
    bits < 0x7f80_0000 || 0x8000_0000 <= bits < 0xff80_0000
}

/// Whether a number has at most 24 significant bits.
pub open spec fn short(n: nat) -> bool {
    exists|m: nat, j: nat| m <= 0x100_0000 && n == #[trigger] (m * pow2(j))
}

/// How far two numbers are apart.
pub open spec fn apart(a: nat, b: nat) -> nat {
    if a < b {
        (b - a) as nat
    } else {
        (a - b) as nat
    }
}

/// Whether `r` is the single-precision neighbour of `p`: of 24 significant bits, with
/// no such number closer to `p`; of two equally close ones, the even multiple of the
/// step between them.
pub open spec fn rounds_to(p: nat, r: nat) -> bool {
    &&& short(r)
    &&& forall|other: nat| #[trigger]
        short(other) ==> {
            &&& apart(r, p) <= apart(other, p)
            &&& other != r && apart(r, p) == apart(other, p) ==> (r / apart(r, other)) % 2 == 0
        }
}

/// No number of 24 significant bits lies strictly between two neighbouring multiples
/// of `2^k`, the lower of them with a multiplier of at least `2^23`.
proof fn lemma_no_short_between(n: nat, q: nat, k: nat)
    requires
        short(n),
        q >= 0x80_0000,
    ensures
        n <= q * pow2(k) || n >= (q + 1) * pow2(k),
{
    let (m, j) = choose|m: nat, j: nat| m <= 0x100_0000 && n == #[trigger] (m * pow2(j));
    let d = pow2(k);
    lemma_pow2_pos(k);
    lemma_pow2_pos(j);
    if j >= k {
        lemma_pow2_adds(k, (j - k) as nat);
        let c = pow2((j - k) as nat);
        assert(m * (d * c) == (m * c) * d) by (nonlinear_arith);
        let x = m * c;
        assert(x * d <= q * d || x * d >= (q + 1) * d) by (nonlinear_arith)
            requires
                d > 0,
        ;
    } else {
        lemma_pow2_unfold(j + 1);
        if j + 1 < k {
            lemma_pow2_strictly_increases(j + 1, k);
        }
        let c = pow2(j);
        assert(m * c <= q * d) by (nonlinear_arith)
            requires
                m <= 0x100_0000,
                q >= 0x80_0000,
                d >= 2 * c,
                c > 0,
        ;
    }
}

/// The quotient by the excess bits fits in 24 bits, and fills them if there are any.
proof fn lemma_excess(p: nat)
    ensures
        p / pow2(excess_bits(p)) < 0x100_0000,
        excess_bits(p) > 0 ==> p / pow2(excess_bits(p)) >= 0x80_0000,
    decreases p,
{
    lemma2_to64();
    if p >= 0x100_0000 {
        let h = p / 2;
        let k = excess_bits(h);
        lemma_excess(h);
        lemma_pow2_unfold(k + 1);
        lemma_pow2_pos(k);
        lemma_div_denominator(p as int, 2, pow2(k) as int);
        assert(p / pow2(k + 1) == h / pow2(k));
        if k == 0 {
            assert(h / 1 == h);
        }
    }
}

/// Rounding to 24 significant bits gives the single-precision neighbour, in any unit
/// that is a power of two.
proof fn lemma_rounding(p: nat, c: nat)
    ensures
        rounds_to(
            p * pow2(c),
            round_half_even(p, pow2(excess_bits(p))) * pow2(excess_bits(p) + c),
        ),
{
    let k = excess_bits(p);
    let d = pow2(k);
    let u = pow2(c);
    let q = p / d;
    let rem = p % d;
    let m = round_half_even(p, d);
    lemma_excess(p);
    lemma_pow2_pos(k);
    lemma_pow2_pos(c);
    lemma_pow2_pos(k + c);
    lemma_pow2_adds(k, c);
    lemma_fundamental_div_mod(p as int, d as int);
    let e = pow2(k + c);
    assert(e == d * u);
    let big = p * u;
    let r = m * e;
    assert(short(r));
    let low = q * e;
    let part = rem * u;
    assert(big == low + part) by (nonlinear_arith)
        requires
            big == p * u,
            p == d * q + rem,
            low == q * e,
            e == d * u,
            part == rem * u,
    ;
    assert((q + 1) * e == low + e) by (nonlinear_arith)
        requires
            low == q * e,
    ;
    assert(rem < d);
    assert(part < e) by (nonlinear_arith)
        requires
            part == rem * u,
            rem < d,
            e == d * u,
            u > 0,
    ;
    assert(2 * rem > d ==> 2 * part > e) by (nonlinear_arith)
        requires
            part == rem * u,
            e == d * u,
            u > 0,
    ;
    assert(2 * rem == d ==> 2 * part == e) by (nonlinear_arith)
        requires
            part == rem * u,
            e == d * u,
    ;
    assert(2 * rem < d ==> 2 * part < e) by (nonlinear_arith)
        requires
            part == rem * u,
            e == d * u,
            u > 0,
    ;
    if k == 0 {
        lemma2_to64();
        assert(rem == 0);
        assert(part == 0) by (nonlinear_arith)
            requires
                part == rem * u,
                rem == 0,
        ;
        assert(m == q);
        assert(r == big);
    } else {
        assert forall|other: nat| #[trigger] short(other) implies {
            &&& apart(r, big) <= apart(other, big)
            &&& other != r && apart(r, big) == apart(other, big) ==> (r / apart(r, other)) % 2
                == 0
        } by {
            lemma_no_short_between(other, q, k + c);
            if other != r && apart(r, big) == apart(other, big) {
                assert(2 * part == e);
                assert(apart(r, other) == e);
                assert(r / e == m) by (nonlinear_arith)
                    requires
                        r == m * e,
                        e > 0,
                ;
                assert(m % 2 == 0);
            }
        }
    }
}

/// The PCM value of a sample is the single-precision product of its magnitude with
/// 32767, rounded to nearest with ties to even, then cut to an integer and clamped
/// to the 16-bit range, with the sign of the sample.
pub proof fn law_quantize(bits: u32, value: i16)
    requires
        is_number(bits),
        call_ensures(quantize, (bits,), value),
    ensures
        exists|r: nat| #[trigger]
            rounds_to(magnitude(bits) * 32767, r) && if bits < 0x8000_0000 {
                value == if r / pow2(149) < 32767 {
                    (r / pow2(149)) as int
                } else {
                    32767
                }
            } else {
                -value == if r / pow2(149) < 32768 {
                    (r / pow2(149)) as int
                } else {
                    32768
                }
            },
{
    let sig = significand(bits);
    let p = sig * 32767;
    let k = excess_bits(p);
    let c = (scale(bits) + 149) as nat;
    let m = round_half_even(p, pow2(k));
    let r = m * pow2(k + c);
    lemma_rounding(p, c);
    lemma2_to64();
    let u = pow2(c);
    assert(magnitude(bits) == sig * u) by {
        if scale(bits) == -149 {
            assert(sig * 1 == sig);
        }
    }
    assert(p * u == magnitude(bits) * 32767) by (nonlinear_arith)
        requires
            p == sig * 32767,
            magnitude(bits) == sig * u,
    ;
    let s = k + scale(bits);
    lemma_pow2_pos(149);
    if s >= 0 {
        lemma_pow2_adds(s as nat, 149);
        let (a, b) = (pow2(s as nat), pow2(149));
        assert(k + c == s + 149);
        assert(m * (a * b) == (m * a) * b) by (nonlinear_arith);
        let x = m * a;
        assert((x * b) / b == x) by (nonlinear_arith)
            requires
                b > 0,
        ;
    } else {
        let n = (-s) as nat;
        let rest = (149 - n) as nat;
        assert(k + c == rest);
        lemma_pow2_adds(rest, n);
        lemma_pow2_pos(rest);
        lemma_pow2_pos(n);
        let (a, b) = (pow2(rest), pow2(n));
        lemma_div_denominator((m * a) as int, a as int, b as int);
        assert((m * a) / a == m) by (nonlinear_arith)
            requires
                a > 0,
        ;
    }
    assert(r / pow2(149) == crate::sample::scaled_magnitude(bits));
}

/// A sample and its negation have opposite PCM values, but for the one value that
/// only negative samples reach.
pub proof fn law_quantize_is_odd(bits: u32, value: i16, negated: i16)
    requires
        bits < 0x7f80_0000,
        call_ensures(quantize, (bits,), value),
        call_ensures(quantize, ((bits + 0x8000_0000) as u32,), negated),
    ensures
        value >= 0,
        negated == -value || value == 32767 && negated == -32768,
{
    let other = (bits + 0x8000_0000) as u32;
    assert((other / 0x80_0000) % 0x100 == (bits / 0x80_0000) % 0x100);
    assert(other % 0x80_0000 == bits % 0x80_0000);
}

/// A PCM value becomes the sample of exactly that value divided by 32768, of the same
/// sign; zero becomes silence.
pub proof fn law_sample_of(value: i16, bits: u32)
    requires
        call_ensures(sample_of, (value,), bits),
    ensures
        is_number(bits),
        magnitude(bits) * 32768 == (if value < 0 {
            -value
        } else {
            value as int
        }) * pow2(149),
        value < 0 <==> bits >= 0x8000_0000,
        value == 0 <==> bits == 0,
{
    lemma_sample_value(bits, value as int);
}

proof fn lemma_sample_value(bits: u32, v: int)
    requires
        represents(bits, v),
    ensures
        is_number(bits),
        magnitude(bits) * 32768 == (if v < 0 {
            -v
        } else {
            v
        }) * pow2(149),
        v < 0 <==> bits >= 0x8000_0000,
        v == 0 <==> bits == 0,
{
    if v == 0 {
        assert(magnitude(bits) == 0);
        assert(0 * pow2(149) == 0) by (nonlinear_arith);
    } else {
        let e = crate::sample::exponent(bits);
        let sig = significand(bits);
        let a: int = if v < 0 {
            -v
        } else {
            v
        };
        lemma2_to64();
        lemma_pow2_unfold(e);
        lemma_pow2_adds(135, 14);
        let (x, y) = (pow2((e - 1) as nat), pow2(135));
        assert(magnitude(bits) == sig * x);
        assert((sig * x) * 32768 == a * (y * 16384)) by (nonlinear_arith)
            requires
                sig * (2 * x) == a * y,
        ;
    }
}

/// Samples are numbers unless their exponent bits are all set.
pub proof fn law_is_finite(bits: u32, yes: bool)
    requires
        call_ensures(is_finite, (bits,), yes),
    ensures
        yes <==> is_number(bits),
{
}

/// A frame is finite exactly if every sample of it is.
pub proof fn law_all_finite(frame: &[u32], yes: bool)
    requires
        call_ensures(all_finite, (frame,), yes),
    ensures
        yes <==> forall|i: int| 0 <= i < frame@.len() ==> is_number(#[trigger] frame@[i]),
{
    if yes {
        assert forall|i: int| 0 <= i < frame@.len() implies is_number(#[trigger] frame@[i]) by {
            assert(crate::sample::finite(frame@[i]));
        }
    } else {
        let i = choose|i: int|
            0 <= i < frame@.len() && !crate::sample::finite(#[trigger] frame@[i]);
        assert(!is_number(frame@[i]));
    }
}

/// A frame is converted sample by sample, in both directions.
pub proof fn law_frames_are_converted_sample_by_sample(
    frame: &[u32],
    pcm: Vec<i16>,
    i: int,
    value: i16,
    values: &[i16],
    samples: Vec<u32>,
    j: int,
    bits: u32,
)
    requires
        call_ensures(quantize_frame, (frame,), pcm),
        0 <= i < frame@.len(),
        call_ensures(quantize, (frame@[i],), value),
        call_ensures(samples_of, (values,), samples),
        0 <= j < values@.len(),
        call_ensures(sample_of, (values@[j],), bits),
    ensures
        pcm@.len() == frame@.len(),
        pcm@[i] == value,
        samples@.len() == values@.len(),
        samples@[j] == bits,
{
    assert(represents(samples@[j], values@[j] as int));
    crate::sample::law_sample_is_unique(samples@[j], bits, values@[j] as int);
}

/// Silence is zero all through, of the length asked for.
pub proof fn law_silence(n: usize, frame: Vec<u32>)
    requires
        call_ensures(silence, (n,), frame),
    ensures
        frame@.len() == n,
        forall|i: int| 0 <= i < n ==> #[trigger] frame@[i] == 0,
{
}

/// Joining runs of samples puts them one behind the other.
pub proof fn law_joined(a: Seq<Seq<u32>>, run: Seq<u32>)
    ensures
        joined(Seq::empty()) == Seq::<u32>::empty(),
        joined(seq![run]) == run,
        joined(a.push(run)) == joined(a) + run,
        joined(seq![run] + a) == run + joined(a),
{
    assert(a.push(run).drop_last() =~= a);
    assert(seq![run].drop_last() =~= Seq::<Seq<u32>>::empty());
    assert(joined(seq![run]) == joined(seq![run].drop_last()) + seq![run].last());
    assert(Seq::<u32>::empty() + run =~= run);
    crate::sample::lemma_joined_concat(seq![run], a);
}

/// The echo canceller works on 20 ms at 16 kHz, with a filter of 0.2 s and noise
/// suppression.
pub proof fn law_new_canceller(canceler: EchoCanceler, config: EchoConfig)
    requires
        call_ensures(EchoCanceler::new, (), canceler),
        call_ensures(EchoCanceler::config, (&canceler,), config),
    ensures
        config.sample_rate == 16000,
        config.frame_size * 50 == config.sample_rate,
        config.filter_length * 5 == config.sample_rate,
        config.enable_preprocess,
        canceler.bypasses(),
{
}

/// A recorded frame is accepted exactly if all three buffers have the size of a frame
/// and both inputs are numbers all through. A refusal names the first thing that is
/// wrong and leaves the output alone. While nothing audible is rendered the recording
/// is copied; otherwise both frames go to the filter, sample by sample.
pub proof fn law_which_frames_are_accepted(
    canceler: EchoCanceler,
    rec: &[u32],
    echo: &[u32],
    out: &mut [u32],
    step: Result<EchoStep, EchoCancelError>,
    config: EchoConfig,
)
    requires
        call_ensures(EchoCanceler::cancel_echo_f32, (&canceler, rec, echo, out), step),
        call_ensures(EchoCanceler::config, (&canceler,), config),
        rec@.len() <= usize::MAX,
        echo@.len() <= usize::MAX,
        old(out)@.len() <= usize::MAX,
    ensures
        step is Ok <==> {
            &&& rec@.len() > 0
            &&& rec@.len() == config.frame_size
            &&& echo@.len() == config.frame_size
            &&& old(out)@.len() == config.frame_size
            &&& forall|i: int| 0 <= i < rec@.len() ==> is_number(#[trigger] rec@[i])
            &&& forall|i: int| 0 <= i < echo@.len() ==> is_number(#[trigger] echo@[i])
        },
        match step {
            Ok(EchoStep::Bypassed) => {
                &&& final(out)@ == rec@
                &&& canceler.bypasses()
                &&& forall|i: int, value: i16|
                    0 <= i < echo@.len() && #[trigger] call_ensures(quantize, (echo@[i],), value)
                        ==> value == 0
            },
            Ok(EchoStep::Filter { rec: a, echo: b }) => {
                &&& final(out)@ == old(out)@
                &&& a@.len() == rec@.len()
                &&& b@.len() == echo@.len()
                &&& forall|i: int, value: i16|
                    0 <= i < rec@.len() && #[trigger] call_ensures(quantize, (rec@[i],), value)
                        ==> a@[i] == value
                &&& forall|i: int, value: i16|
                    0 <= i < echo@.len() && #[trigger] call_ensures(quantize, (echo@[i],), value)
                        ==> b@[i] == value
                &&& canceler.bypasses() ==> exists|i: int|
                    0 <= i < b@.len() && #[trigger] b@[i] != 0
            },
            Err(EchoCancelError::EmptyFrame) => rec@.len() == 0 && final(out)@ == old(out)@,
            Err(EchoCancelError::BufferLengthMismatch { rec: a, echo: b, out: c }) => {
                &&& rec@.len() > 0
                &&& !(rec@.len() == echo@.len() && rec@.len() == old(out)@.len())
                &&& a == rec@.len()
                &&& b == echo@.len()
                &&& c == old(out)@.len()
                &&& final(out)@ == old(out)@
            },
            Err(EchoCancelError::InvalidFrameSize { expected, got }) => {
                &&& rec@.len() == echo@.len() && rec@.len() == old(out)@.len()
                &&& expected == config.frame_size
                &&& got == rec@.len()
                &&& expected != got
                &&& final(out)@ == old(out)@
            },
            Err(EchoCancelError::NonFiniteInput) => {
                &&& rec@.len() == config.frame_size
                &&& echo@.len() == config.frame_size
                &&& old(out)@.len() == config.frame_size
                &&& final(out)@ == old(out)@
            },
        },
{
    lemma_finite(rec@);
    lemma_finite(echo@);
    if let Ok(EchoStep::Filter { rec: a, echo: b }) = step {
        if canceler.bypasses() {
            let i = choose|i: int|
                0 <= i < echo@.len() && #[trigger] crate::sample::quantized(echo@[i]) != 0;
            lemma_fits(echo@[i]);
            assert(b@[i] != 0);
        }
    }
}

proof fn lemma_fits(bits: u32)
    ensures
        -32768 <= crate::sample::quantized(bits) <= 32767,
{
}

proof fn lemma_finite(frame: Seq<u32>)
    ensures
        crate::sample::finite_frame(frame) <==> forall|i: int|
            0 <= i < frame.len() ==> is_number(#[trigger] frame[i]),
{
    if crate::sample::finite_frame(frame) {
        assert forall|i: int| 0 <= i < frame.len() implies is_number(#[trigger] frame[i]) by {
            assert(crate::sample::finite(frame[i]));
        }
    } else {
        let i = choose|i: int| 0 <= i < frame.len() && !crate::sample::finite(#[trigger] frame[i]);
        assert(!is_number(frame[i]));
    }
}

/// The output of the filter replaces the frame, value by value.
pub proof fn law_filter_output_is_converted(
    canceler: EchoCanceler,
    filtered: &[i16],
    out: &mut [u32],
    i: int,
    bits: u32,
)
    requires
        call_ensures(EchoCanceler::complete, (&canceler, filtered, out), ()),
        0 <= i < filtered@.len(),
        call_ensures(sample_of, (filtered@[i],), bits),
    ensures
        final(out)@.len() == filtered@.len(),
        final(out)@[i] == bits,
{
    assert(represents(final(out)@[i], filtered@[i] as int));
    crate::sample::law_sample_is_unique(final(out)@[i], bits, filtered@[i] as int);
}

/// A captured frame is refused, skipped or filtered as the same frame is with an
/// output buffer of its own size; it is returned as it was.
pub proof fn law_captured_frames(
    canceler: &mut EchoCanceler,
    capture: Vec<u32>,
    render: Vec<u32>,
    taken: Result<(Vec<u32>, EchoStep), EchoCancelError>,
    rec: &[u32],
    echo: &[u32],
    out: &mut [u32],
    step: Result<EchoStep, EchoCancelError>,
)
    requires
        rec@ == capture@,
        echo@ == render@,
        old(out)@.len() == capture@.len(),
        call_ensures(EchoCanceler::cancel_speaker_echo, (canceler, capture, render), taken),
        call_ensures(EchoCanceler::cancel_echo_f32, (old(canceler), rec, echo, out), step),
    ensures
        *final(canceler) == *old(canceler),
        match (taken, step) {
            (Ok((frame, EchoStep::Bypassed)), Ok(EchoStep::Bypassed)) => frame@ == capture@,
            (
                Ok((frame, EchoStep::Filter { rec: a, echo: b })),
                Ok(EchoStep::Filter { rec: c, echo: d }),
            ) => frame@ == capture@ && a@ == c@ && b@ == d@,
            (Err(a), Err(b)) => a == b,
            _ => false,
        },
{
}

/// The text of a refusal names its sizes.
pub proof fn law_refusal_texts(error: EchoCancelError, message: String)
    requires
        call_ensures(EchoCancelError::message, (&error,), message),
    ensures
        match error {
            EchoCancelError::BufferLengthMismatch { rec, echo, out } => message@
                == "buffer length mismatch: rec="@ + crate::text::decimal(rec as nat) + ", echo="@
                + crate::text::decimal(echo as nat) + ", out="@ + crate::text::decimal(out as nat),
            EchoCancelError::InvalidFrameSize { expected, got } => message@
                == "invalid frame size: expected "@ + crate::text::decimal(expected as nat)
                + ", got "@ + crate::text::decimal(got as nat),
            EchoCancelError::NonFiniteInput => message@
                == "input contains non-finite values (NaN or Inf)"@,
            EchoCancelError::EmptyFrame => message@ == "empty frame"@,
        },
{
}

/// A PCM frame is all zero exactly if no value of it is anything else.
pub proof fn law_all_zero(pcm: Vec<i16>, yes: bool)
    requires
        call_ensures(all_zero, (&pcm,), yes),
    ensures
        yes <==> forall|i: int| 0 <= i < pcm@.len() ==> #[trigger] pcm@[i] == 0,
{
}

} // verus!
