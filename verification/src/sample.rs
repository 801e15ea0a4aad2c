//! Audio samples.
//!
//! A sample is an IEEE 754 single-precision number, held as its bit pattern
//! (`u32`): sign in bit 31, exponent in bits 23 to 30, fraction in bits 0 to 22.
//! The number is `± significand * 2^scale`.

use vstd::arithmetic::div_mod::lemma_div_denominator;
use vstd::arithmetic::power2::{
    lemma2_to64, lemma2_to64_rest, lemma_pow2_adds, lemma_pow2_pos, lemma_pow2_strictly_increases,
    lemma_pow2_unfold, pow2,
};
use vstd::prelude::*;

verus! {

/// The bit pattern of positive zero, which is silence.
pub const SILENCE: u32 = 0;

/// The exponent field.
pub open spec fn exponent(bits: u32) -> nat {
    ((bits / 0x80_0000) % 0x100) as nat
}

/// The fraction field.
pub open spec fn fraction(bits: u32) -> nat {
    (bits % 0x80_0000) as nat
}

/// Whether the sign bit is set.
pub open spec fn negative(bits: u32) -> bool {
    bits >= 0x8000_0000
}

/// Neither infinite nor "not a number".
pub open spec fn finite(bits: u32) -> bool {
    exponent(bits) != 255
}

/// The significand, with the implicit leading bit of normal numbers.
pub open spec fn significand(bits: u32) -> nat {
    if exponent(bits) == 0 {
        fraction(bits)
    } else {
        fraction(bits) + 0x80_0000
    }
}

/// The power of two that the significand is multiplied by.
pub open spec fn scale(bits: u32) -> int {
    if exponent(bits) == 0 {
        -149
    } else {
        exponent(bits) - 150
    }
}

/// How many low bits of `p` do not fit in a 24-bit significand.
pub open spec fn excess_bits(p: nat) -> nat
    decreases p,
{
    if p < 0x100_0000 {
        0
    } else {
        1 + excess_bits(p / 2)
    }
}

/// `p / d` rounded to the nearest integer, halves to the even one.
pub open spec fn round_half_even(p: nat, d: nat) -> nat {
    let q = p / d;
    let r = p % d;
    if 2 * r > d || (2 * r == d && q % 2 == 1) {
        q + 1
    } else {
        q
    }
}

/// The integer part of the magnitude of the single-precision product of the
/// sample with 32767: the exact product rounded to 24 significant bits, then
/// cut to an integer.
pub open spec fn scaled_magnitude(bits: u32) -> nat {
    let p = significand(bits) * 32767;
    let k = excess_bits(p);
    let m = round_half_even(p, pow2(k));
    let s = k + scale(bits);
    if s >= 0 {
        m * pow2(s as nat)
    } else {
        m / pow2((-s) as nat)
    }
}

/// The 16-bit PCM value of a finite sample: the product with 32767, clamped to
/// the 16-bit range and cut towards zero.
pub open spec fn quantized(bits: u32) -> int {
    let t = scaled_magnitude(bits);
    if negative(bits) {
        if t > 32768 {
            -32768
        } else {
            -t
        }
    } else {
        if t > 32767 {
            32767
        } else {
            t as int
        }
    }
}

/// Whether `bits` is the sample whose value is exactly `v / 32768`.
pub open spec fn represents(bits: u32, v: int) -> bool {
    if v == 0 {
        bits == SILENCE
    } else {
        &&& 1 <= exponent(bits) <= 254
        &&& negative(bits) == (v < 0)
        &&& significand(bits) * pow2(exponent(bits)) == (if v < 0 {
            -v
        } else {
            v
        }) * pow2(135)
    }
}

/// The PCM values of a frame.
pub open spec fn quantized_frame(frame: Seq<u32>) -> Seq<i16> {
    frame.map_values(|b: u32| quantized(b) as i16)
}

/// Whether every sample of `frame` is the exact value of the PCM value at the
/// same index, divided by 32768.
pub open spec fn represents_frame(frame: Seq<u32>, pcm: Seq<i16>) -> bool {
    &&& frame.len() == pcm.len()
    &&& forall|i: int| 0 <= i < frame.len() ==> represents(#[trigger] frame[i], pcm[i] as int)
}

/// Whether every sample of a frame is finite.
pub open spec fn finite_frame(frame: Seq<u32>) -> bool {
    forall|i: int| 0 <= i < frame.len() ==> finite(#[trigger] frame[i])
}

/// A frame of `n` zero samples.
pub open spec fn silent_frame(n: nat) -> Seq<u32> {
    Seq::new(n, |i: int| SILENCE)
}

/// A PCM frame of zeros.
pub open spec fn silent_pcm(pcm: Seq<i16>) -> bool {
    forall|i: int| 0 <= i < pcm.len() ==> #[trigger] pcm[i] == 0
}

/// The concatenation of a list of sample runs.
pub open spec fn joined(list: Seq<Seq<u32>>) -> Seq<u32>
    decreases list.len(),
{
    if list.len() == 0 {
        Seq::empty()
    } else {
        joined(list.drop_last()) + list.last()
    }
}

/// Decides whether a sample is finite.
pub fn is_finite(bits: u32) -> (yes: bool)
    ensures
        yes == finite(bits),
{
    (bits / 0x80_0000) % 0x100 != 0xff
}

/// Decides whether every sample of a frame is finite.
pub fn all_finite(frame: &[u32]) -> (yes: bool)
    ensures
        yes == finite_frame(frame@),
{
    let mut i: usize = 0;
    while i < frame.len()
        invariant
            i <= frame.len(),
            forall|j: int| 0 <= j < i ==> finite(#[trigger] frame@[j]),
        decreases frame.len() - i,
    {
        if !is_finite(frame[i]) {
            return false;
        }
        i += 1;
    }
    true
}

/// `2^n`.
fn power_of_two(n: u32) -> (p: u64)
    requires
        n < 64,
    ensures
        p == pow2(n as nat),
{
    let mut p: u64 = 1;
    let mut i: u32 = 0;
    proof {
        lemma2_to64();
    }
    while i < n
        invariant
            i <= n < 64,
            p == pow2(i as nat),
        decreases n - i,
    {
        proof {
            lemma_pow2_unfold((i + 1) as nat);
            if i + 1 < 63 {
                lemma_pow2_strictly_increases((i + 1) as nat, 63);
            }
            lemma2_to64_rest();
        }
        p = p * 2;
        i += 1;
    }
    p
}

/// `k` excess bits leave a quotient that fills the significand.
proof fn lemma_excess_step(p: nat, k: nat)
    requires
        p / pow2(k) >= 0x100_0000,
    ensures
        p / pow2(k + 1) == (p / pow2(k)) / 2,
        pow2(k + 1) == 2 * pow2(k),
        pow2(k) > 0,
        pow2(k) <= p,
{
    lemma_pow2_pos(k);
    lemma_pow2_unfold(k + 1);
    lemma_div_denominator(p as int, pow2(k) as int, 2);
    if p < pow2(k) {
        assert(p / pow2(k) == 0) by (nonlinear_arith)
            requires
                p < pow2(k),
                p >= 0,
        ;
    }
}

/// A magnitude of at least `2^23` units that is not divided saturates.
proof fn lemma_large_magnitude(m: nat, s: nat)
    requires
        m >= 0x80_0000,
    ensures
        m * pow2(s) > 32768,
{
    lemma_pow2_pos(s);
    assert(m * pow2(s) >= m) by (nonlinear_arith)
        requires
            pow2(s) >= 1,
            m >= 0,
    ;
}

/// Dividing a rounded significand by `2^25` or more leaves nothing.
proof fn lemma_small_magnitude(m: nat, n: nat)
    requires
        m <= 0x100_0000,
        n >= 25,
    ensures
        m / pow2(n) == 0,
{
    lemma2_to64();
    if n > 25 {
        lemma_pow2_strictly_increases(25, n);
    }
    let d = pow2(n);
    assert(m / d == 0) by (nonlinear_arith)
        requires
            0 <= m < d,
    ;
}

/// The 16-bit PCM value of a finite sample.
pub fn quantize(bits: u32) -> (value: i16)
    requires
        finite(bits),
    ensures
        value == quantized(bits),
{
    let e: u32 = (bits / 0x80_0000) % 0x100;
    let f: u32 = bits % 0x80_0000;
    let m: u64 = if e == 0 {
        f as u64
    } else {
        f as u64 + 0x80_0000
    };
    let p: u64 = m * 32767;
    let mut k: u32 = 0;
    let mut d: u64 = 1;
    let mut q: u64 = p;
    proof {
        lemma2_to64();
    }
    while q >= 0x100_0000
        invariant
            p <= 0xff_ffff * 32767,
            d == pow2(k as nat),
            q == p as nat / pow2(k as nat),
            excess_bits(p as nat) == k + excess_bits(q as nat),
            k <= 15,
            k > 0 ==> q >= 0x80_0000,
            k == 0 ==> q == p,
            d >= 1,
        decreases q,
    {
        proof {
            lemma_excess_step(p as nat, k as nat);
            lemma2_to64();
            if k == 15 {
                assert(p / 0x8000 < 0x100_0000);
            }
        }
        q = q / 2;
        d = d * 2;
        k += 1;
    }
    assert(excess_bits(q as nat) == 0);
    let r: u64 = p % d;
    let rounded: u64 = if 2 * r > d || (2 * r == d && q % 2 == 1) {
        q + 1
    } else {
        q
    };
    assert(rounded == round_half_even(p as nat, pow2(k as nat)));
    let s: i32 = k as i32 + if e == 0 {
        -149
    } else {
        e as i32 - 150
    };
    let t: u64 = if s >= 0 {
        proof {
            assert(k > 0);
            lemma_large_magnitude(rounded as nat, s as nat);
        }
        32769
    } else if s <= -25 {
        proof {
            lemma_small_magnitude(rounded as nat, (-s) as nat);
        }
        0
    } else {
        rounded / power_of_two((-s) as u32)
    };
    if bits >= 0x8000_0000 {
        if t > 32768 {
            -32768
        } else {
            (-(t as i32)) as i16
        }
    } else {
        if t > 32767 {
            32767
        } else {
            t as i16
        }
    }
}

/// The PCM values of a frame of finite samples.
pub fn quantize_frame(frame: &[u32]) -> (pcm: Vec<i16>)
    requires
        finite_frame(frame@),
    ensures
        pcm@ == quantized_frame(frame@),
{
    let mut pcm: Vec<i16> = Vec::new();
    let mut i: usize = 0;
    while i < frame.len()
        invariant
            i <= frame.len(),
            finite_frame(frame@),
            pcm@.len() == i,
            forall|j: int| 0 <= j < i ==> pcm@[j] == #[trigger] quantized_frame(frame@)[j],
        decreases frame.len() - i,
    {
        pcm.push(quantize(frame[i]));
        i += 1;
    }
    assert(pcm@ =~= quantized_frame(frame@));
    pcm
}

/// The sample whose value is exactly `value / 32768`.
pub fn sample_of(value: i16) -> (bits: u32)
    ensures
        represents(bits, value as int),
{
    if value == 0 {
        return SILENCE;
    }
    let n: u32 = if value < 0 {
        (-(value as i32)) as u32
    } else {
        value as u32
    };
    let mut m: u32 = n;
    let mut j: u32 = 0;
    proof {
        lemma2_to64();
    }
    while m < 0x80_0000
        invariant
            1 <= n <= 32768,
            j <= 23,
            m == n * pow2(j as nat),
            1 <= m < 0x100_0000,
        decreases 0x100_0000 - m,
    {
        proof {
            lemma2_to64();
            lemma_pow2_pos(j as nat);
            lemma_pow2_unfold((j + 1) as nat);
            assert(n * pow2(j as nat) >= pow2(j as nat)) by (nonlinear_arith)
                requires
                    n >= 1,
                    pow2(j as nat) >= 1,
            ;
            assert(n * (2 * pow2(j as nat)) == 2 * (n * pow2(j as nat))) by (nonlinear_arith);
        }
        m = m * 2;
        j += 1;
    }
    let e: u32 = 135 - j;
    let magnitude: u32 = e * 0x80_0000 + (m - 0x80_0000);
    let bits: u32 = if value < 0 {
        0x8000_0000 + magnitude
    } else {
        magnitude
    };
    proof {
        assert(exponent(bits) == e);
        assert(fraction(bits) == m - 0x80_0000);
        lemma_pow2_adds(j as nat, e as nat);
        assert((n * pow2(j as nat)) * pow2(e as nat) == n * (pow2(j as nat) * pow2(e as nat)))
            by (nonlinear_arith);
    }
    bits
}

/// The samples of a frame of PCM values.
pub fn samples_of(pcm: &[i16]) -> (frame: Vec<u32>)
    ensures
        represents_frame(frame@, pcm@),
{
    let mut frame: Vec<u32> = Vec::new();
    let mut i: usize = 0;
    while i < pcm.len()
        invariant
            i <= pcm.len(),
            frame@.len() == i,
            forall|j: int| 0 <= j < i ==> represents(#[trigger] frame@[j], pcm@[j] as int),
        decreases pcm.len() - i,
    {
        frame.push(sample_of(pcm[i]));
        i += 1;
    }
    frame
}

/// A frame of `n` zero samples.
pub fn silence(n: usize) -> (frame: Vec<u32>)
    ensures
        frame@ == silent_frame(n as nat),
{
    let mut frame: Vec<u32> = Vec::new();
    let mut i: usize = 0;
    while i < n
        invariant
            i <= n,
            frame@ == silent_frame(i as nat),
        decreases n - i,
    {
        frame.push(SILENCE);
        assert(frame@ =~= silent_frame((i + 1) as nat));
        i += 1;
    }
    frame
}

/// Whether every value of a PCM frame is zero.
pub fn all_zero(pcm: &Vec<i16>) -> (yes: bool)
    ensures
        yes == (forall|i: int| 0 <= i < pcm@.len() ==> #[trigger] pcm@[i] == 0),
        yes == silent_pcm(pcm@),
{
    let mut i: usize = 0;
    while i < pcm.len()
        invariant
            i <= pcm.len(),
            forall|j: int| 0 <= j < i ==> #[trigger] pcm@[j] == 0,
        decreases pcm.len() - i,
    {
        if pcm[i] != 0 {
            return false;
        }
        i += 1;
    }
    true
}

/// Silence is finite and has the PCM value zero.
pub proof fn lemma_silence_is_zero()
    ensures
        finite(SILENCE),
        quantized(SILENCE) == 0,
        represents(SILENCE, 0),
{
    lemma2_to64();
    assert(exponent(SILENCE) == 0 && fraction(SILENCE) == 0);
    assert(excess_bits(0) == 0);
    assert(round_half_even(0, 1) == 0);
    lemma_small_magnitude(0, 149);
}

/// Only one sample has a given PCM value divided by 32768.
pub proof fn law_sample_is_unique(a: u32, b: u32, v: int)
    requires
        represents(a, v),
        represents(b, v),
    ensures
        a == b,
{
    if v != 0 {
        if exponent(a) < exponent(b) {
            lemma_product_order(
                significand(a),
                exponent(a),
                significand(b),
                exponent(b),
            );
        } else if exponent(b) < exponent(a) {
            lemma_product_order(
                significand(b),
                exponent(b),
                significand(a),
                exponent(a),
            );
        } else {
            lemma_pow2_pos(exponent(a));
            let (x, y, d) = (significand(a), significand(b), pow2(exponent(a)));
            assert(x == y) by (nonlinear_arith)
                requires
                    x * d == y * d,
                    d > 0,
            ;
        }
    }
}

proof fn lemma_product_order(x: nat, i: nat, y: nat, j: nat)
    requires
        x < 0x100_0000,
        y >= 0x80_0000,
        i < j,
    ensures
        x * pow2(i) < y * pow2(j),
{
    lemma_pow2_pos(i);
    lemma_pow2_unfold(i + 1);
    if i + 1 < j {
        lemma_pow2_strictly_increases(i + 1, j);
    }
    let (a, b) = (pow2(i), pow2(j));
    assert(x * a < y * b) by (nonlinear_arith)
        requires
            x < 0x100_0000,
            y >= 0x80_0000,
            a > 0,
            b >= 2 * a,
    ;
}

/// Joining two lists joins their concatenations.
pub proof fn lemma_joined_concat(a: Seq<Seq<u32>>, b: Seq<Seq<u32>>)
    ensures
        joined(a + b) == joined(a) + joined(b),
    decreases b.len(),
{
    if b.len() == 0 {
        assert(a + b =~= a);
        assert(joined(a) + joined(b) =~= joined(a));
    } else {
        lemma_joined_concat(a, b.drop_last());
        assert((a + b).drop_last() =~= a + b.drop_last());
        assert((joined(a) + joined(b.drop_last())) + b.last() =~= joined(a) + (joined(
            b.drop_last(),
        ) + b.last()));
    }
}

} // verus!
