//! Arithmetic helpers shared by the host model: reduced rational numbers
//! for frame durations, saturating conversions, and version encoding.

use crate::vs::{VSAudioFormat, VSAudioInfo, VSColorFamily, VSVideoFormat, VSVideoInfo};
use vstd::prelude::*;

verus! {

/// Whether the format never changes between frames of a clip.
pub fn is_constant_video_format(vi: &VSVideoInfo) -> (r: bool)
    ensures
        r == (vi.height > 0 && vi.width > 0 && vi.format.color_family != VSColorFamily::Undefined),
{
    vi.height > 0 && vi.width > 0 && !(vi.format.color_family == VSColorFamily::Undefined)
}

/// Whether two clips have the same video format (an unknown or changeable
/// format is considered the same too).
pub fn is_same_video_format(v1: &VSVideoFormat, v2: &VSVideoFormat) -> (r: bool)
    ensures
        r == (v1.color_family == v2.color_family && v1.sample_type == v2.sample_type
            && v1.bits_per_sample == v2.bits_per_sample && v1.sub_sampling_w == v2.sub_sampling_w
            && v1.sub_sampling_h == v2.sub_sampling_h),
{
    v1.color_family == v2.color_family && v1.sample_type == v2.sample_type && v1.bits_per_sample
        == v2.bits_per_sample && v1.sub_sampling_w == v2.sub_sampling_w && v1.sub_sampling_h
        == v2.sub_sampling_h
}

/// Whether two clips have the same format (but not frame rate), width and
/// height included.
pub fn is_same_video_info(v1: &VSVideoInfo, v2: &VSVideoInfo) -> (r: bool)
    ensures
        r == (v1.height == v2.height && v1.width == v2.width && (v1.format.color_family
            == v2.format.color_family && v1.format.sample_type == v2.format.sample_type
            && v1.format.bits_per_sample == v2.format.bits_per_sample && v1.format.sub_sampling_w
            == v2.format.sub_sampling_w && v1.format.sub_sampling_h == v2.format.sub_sampling_h)),
{
    v1.height == v2.height && v1.width == v2.width && is_same_video_format(&v1.format, &v2.format)
}

/// Whether two clips have the same audio format.
pub fn is_same_audio_format(a1: &VSAudioFormat, a2: &VSAudioFormat) -> (r: bool)
    ensures
        r == (a1.bits_per_sample == a2.bits_per_sample && a1.sample_type == a2.sample_type
            && a1.channel_layout == a2.channel_layout),
{
    a1.bits_per_sample == a2.bits_per_sample && a1.sample_type == a2.sample_type
        && a1.channel_layout == a2.channel_layout
}

/// Whether two clips have the same audio format, sample rate included.
pub fn is_same_audio_info(a1: &VSAudioInfo, a2: &VSAudioInfo) -> (r: bool)
    ensures
        r == (a1.sample_rate == a2.sample_rate && (a1.format.bits_per_sample
            == a2.format.bits_per_sample && a1.format.sample_type == a2.format.sample_type
            && a1.format.channel_layout == a2.format.channel_layout)),
{
    a1.sample_rate == a2.sample_rate && is_same_audio_format(&a1.format, &a2.format)
}

/// Whether the frame dimensions are divisible by the format's subsampling
/// factors, as frame creation demands.
pub fn are_valid_dimensions(fi: &VSVideoFormat, width: i32, height: i32) -> (r: bool)
    requires
        0 <= width,
        0 <= height,
    ensures
        r == ((width as int) % crate::vscore::sub_factor(fi.sub_sampling_w as int) == 0 && (
        height as int) % crate::vscore::sub_factor(fi.sub_sampling_h as int) == 0),
{
    let sw = crate::vscore::Core::sub_factor_exec(fi.sub_sampling_w);
    let sh = crate::vscore::Core::sub_factor_exec(fi.sub_sampling_h);
    width % sw == 0 && height % sh == 0
}

/// Whether byte `i` of the destination lies in the copied region: inside
/// the first `row_size` bytes of one of the first `height` rows.
pub open spec fn in_copied_region(i: int, dst_stride: int, row_size: int, height: int) -> bool {
    i / dst_stride < height && i % dst_stride < row_size
}

/// Copies `height` rows of `row_size` bytes from one strided plane buffer
/// to another; bytes outside the copied region keep their value.
pub fn bitblt(
    dstp: &mut Vec<u8>,
    dst_stride: usize,
    srcp: &Vec<u8>,
    src_stride: usize,
    row_size: usize,
    height: usize,
)
    requires
        0 < dst_stride,
        0 < src_stride,
        row_size <= dst_stride,
        row_size <= src_stride,
        height * src_stride <= srcp@.len(),
        height * dst_stride <= old(dstp)@.len(),
    ensures
        final(dstp)@.len() == old(dstp)@.len(),
        forall|i: int|
            0 <= i < old(dstp)@.len() ==> final(dstp)@[i] == (if in_copied_region(
                i,
                dst_stride as int,
                row_size as int,
                height as int,
            ) {
                srcp@[(i / (dst_stride as int)) * (src_stride as int) + (i % (dst_stride as int))]
            } else {
                old(dstp)@[i]
            }),
{
    let ghost ds = dst_stride as int;
    let ghost ss = src_stride as int;
    let mut r: usize = 0;
    while r < height
        invariant
            0 <= r <= height,
            0 < dst_stride,
            0 < src_stride,
            row_size <= dst_stride,
            row_size <= src_stride,
            height * src_stride <= srcp@.len(),
            height * dst_stride <= old(dstp)@.len(),
            dstp@.len() == old(dstp)@.len(),
            ds == dst_stride as int,
            ss == src_stride as int,
            forall|i: int|
                0 <= i < old(dstp)@.len() ==> dstp@[i] == (if i / ds < r && i % ds < row_size {
                    srcp@[(i / ds) * ss + (i % ds)]
                } else {
                    old(dstp)@[i]
                }),
        decreases height - r,
    {
        let mut c: usize = 0;
        while c < row_size
            invariant
                0 <= c <= row_size,
                0 <= r < height,
                0 < dst_stride,
                0 < src_stride,
                row_size <= dst_stride,
                row_size <= src_stride,
                height * src_stride <= srcp@.len(),
                height * dst_stride <= old(dstp)@.len(),
                dstp@.len() == old(dstp)@.len(),
                ds == dst_stride as int,
                ss == src_stride as int,
                forall|i: int|
                    0 <= i < old(dstp)@.len() ==> dstp@[i] == (if (i / ds < r && i % ds < row_size)
                        || (i / ds == r && i % ds < c) {
                        srcp@[(i / ds) * ss + (i % ds)]
                    } else {
                        old(dstp)@[i]
                    }),
            decreases row_size - c,
        {
            proof {
                let ri = r as int;
                let ci = c as int;
                assert(ri * ds + ci < (ri + 1) * ds && (ri + 1) * ds <= (height as int) * ds && ri
                    * ss + ci < (ri + 1) * ss && (ri + 1) * ss <= (height as int) * ss && 0 <= ri
                    * ds && 0 <= ri * ss) by (nonlinear_arith)
                    requires
                        0 <= ri < height as int,
                        0 <= ci < ds,
                        ci < ss,
                        0 < ds,
                        0 < ss,
                ;
                vstd::arithmetic::div_mod::lemma_fundamental_div_mod_converse(
                    ri * ds + ci,
                    ds,
                    ri,
                    ci,
                );
            }
            let dlen = dstp.len();
            let slen = srcp.len();
            proof {
                assert(dstp@.len() == dlen && srcp@.len() == slen);
                let ri = r as int;
                let ci = c as int;
                assert((height as int) * ds <= dlen as int && (height as int) * ss <= slen as int);
                assert(ri * ds + ci < dlen as int && ri * ss + ci < slen as int);
            }
            let di = r * dst_stride + c;
            let si = r * src_stride + c;
            let b = srcp[si];
            let ghost pre = dstp@;
            dstp[di] = b;
            proof {
                let ri = r as int;
                let ci = c as int;
                let j = ri * ds + ci;
                assert(j / ds == ri && j % ds == ci);
                assert forall|i: int| 0 <= i < old(dstp)@.len() implies dstp@[i] == (if (i / ds < ri
                    && i % ds < row_size) || (i / ds == ri && i % ds < ci + 1) {
                    srcp@[(i / ds) * ss + (i % ds)]
                } else {
                    old(dstp)@[i]
                }) by {
                    if i != j {
                        assert(dstp@[i] == pre[i]);
                        if i / ds == ri && i % ds == ci {
                            vstd::arithmetic::div_mod::lemma_fundamental_div_mod(i, ds);
                            assert(i == j);
                        }
                    }
                }
            }
            c = c + 1;
        }
        proof {
            assert forall|i: int| 0 <= i < old(dstp)@.len() implies dstp@[i] == (if i / ds < r
                as int + 1 && i % ds < row_size {
                srcp@[(i / ds) * ss + (i % ds)]
            } else {
                old(dstp)@[i]
            }) by {}
        }
        r = r + 1;
    }
}

/// Absolute value of a mathematical integer.
pub open spec fn iabs(x: int) -> nat {
    if x < 0 {
        (-x) as nat
    } else {
        x as nat
    }
}

/// Greatest common divisor by Euclid's rule.
pub open spec fn gcd(a: nat, b: nat) -> nat
    decreases b,
{
    if b == 0 {
        a
    } else {
        gcd(b, a % b)
    }
}

/// The divisor computed by Euclid's rule divides both starting numbers,
/// and it is zero only when both numbers are zero.
pub proof fn lemma_gcd_divides(a: nat, b: nat)
    ensures
        gcd(a, b) == 0 ==> a == 0 && b == 0,
        gcd(a, b) != 0 ==> a % gcd(a, b) == 0 && b % gcd(a, b) == 0,
    decreases b,
{
    let g = gcd(a, b);
    if b == 0 {
        if a != 0 {
            vstd::arithmetic::div_mod::lemma_mod_self_0(a as int);
        }
    } else {
        lemma_gcd_divides(b, a % b);
        vstd::arithmetic::div_mod::lemma_mod_division_less_than_divisor(a as int, b as int);
        assert(g == gcd(b, a % b));
        assert(g != 0) by {
            if g == 0 {
                assert(b == 0);
            }
        }
        assert(b % g == 0 && (a % b) % g == 0);
        vstd::arithmetic::div_mod::lemma_fundamental_div_mod(a as int, b as int);
        vstd::arithmetic::div_mod::lemma_fundamental_div_mod(b as int, g as int);
        vstd::arithmetic::div_mod::lemma_fundamental_div_mod((a % b) as int, g as int);
        let qb = b as int / g as int;
        let qr = (a % b) as int / g as int;
        let qa = a as int / b as int;
        assert(a == b * qa + (a % b));
        assert(b == g * qb);
        assert(a % b == g * qr);
        assert(a == g * (qb * qa + qr)) by (nonlinear_arith)
            requires
                a == b * qa + (a % b),
                b == g * qb,
                a % b == g * qr,
        ;
        vstd::arithmetic::div_mod::lemma_mod_multiples_basic(qb * qa + qr, g as int);
    }
}

/// The divisor of two 64-bit numbers, by Euclid's rule.
pub fn gcd_u64(a0: u64, b0: u64) -> (g: u64)
    ensures
        g == gcd(a0 as nat, b0 as nat),
{
    let mut a = a0;
    let mut b = b0;
    while b != 0
        invariant
            gcd(a as nat, b as nat) == gcd(a0 as nat, b0 as nat),
        decreases b,
    {
        let t = a % b;
        a = b;
        b = t;
    }
    a
}

/// Absolute value of a signed number, as an unsigned number.
fn abs_i64(x: i64) -> (r: u64)
    requires
        x > i64::MIN,
    ensures
        r == iabs(x as int),
{
    if x < 0 {
        (-x) as u64
    } else {
        x as u64
    }
}

/// Divides a signed number exactly by a positive divisor of its magnitude.
fn div_exact(x: i64, g: u64) -> (r: i64)
    requires
        x > i64::MIN,
        g > 0,
        iabs(x as int) % (g as nat) == 0,
    ensures
        r * g == x,
        r > i64::MIN,
{
    let m = abs_i64(x);
    let q = m / g;
    proof {
        vstd::arithmetic::div_mod::lemma_fundamental_div_mod(m as int, g as int);
        vstd::arithmetic::div_mod::lemma_div_nonincreasing(m as int, g as int);
        assert(m == g * (m as int / g as int));
        let qi = q as int;
        let gi = g as int;
        assert((-qi) * gi == -(qi * gi) && qi * gi == gi * qi) by (nonlinear_arith);
    }
    if x < 0 {
        -(q as i64)
    } else {
        q as i64
    }
}

/// Packs a major and minor version into one number: the major version in the
/// high 16 bits, the minor version in the low 16 bits.
pub fn vs_make_version(major: u16, minor: u16) -> (r: i32)
    requires
        major < 0x8000,
    ensures
        r == major * 0x10000 + minor,
{
    (major as i32) * 0x10000 + (minor as i32)
}

/// The pair `(rn, rd)` is the reduced form of the rational `n / d`:
/// dividing both by their (positive) greatest common divisor gives it back.
pub open spec fn reduces_to(n: int, d: int, rn: int, rd: int) -> bool {
    let g = gcd(iabs(n), iabs(d));
    &&& g > 0
    &&& rn * g == n
    &&& rd * g == d
}

/// Multiplies a rational number (such as a frame duration) by `mul / div`
/// in place and reduces the result. An invalid rational (zero denominator)
/// is left untouched.
pub fn muldiv_rational(num: &mut i64, den: &mut i64, mul: i64, div: i64)
    requires
        *old(den) != 0 ==> -0x7fff_ffff_ffff_ffff <= (*old(num)) * mul <= 0x7fff_ffff_ffff_ffff,
        *old(den) != 0 ==> -0x7fff_ffff_ffff_ffff <= (*old(den)) * div <= 0x7fff_ffff_ffff_ffff,
        *old(den) != 0 && div == 0 ==> (*old(num)) * mul != 0,
    ensures
        *old(den) == 0 ==> *final(num) == *old(num) && *final(den) == *old(den),
        *old(den) != 0 ==> reduces_to(
            (*old(num)) * mul,
            (*old(den)) * div,
            *final(num) as int,
            *final(den) as int,
        ),
{
    if *den == 0 {
        return ;
    }
    *num = *num * mul;
    *den = *den * div;
    let na = abs_i64(*num);
    let da = abs_i64(*den);
    let g = gcd_u64(na, da);
    proof {
        lemma_gcd_divides(na as nat, da as nat);
        if div != 0 {
            let d0 = *old(den) as int;
            let dv = div as int;
            assert(d0 * dv != 0) by (nonlinear_arith)
                requires
                    d0 != 0,
                    dv != 0,
            ;
        }
        assert(g > 0);
    }
    *num = div_exact(*num, g);
    *den = div_exact(*den, g);
}

/// Reduces a rational number in place. An invalid rational (zero
/// denominator) is left untouched.
pub fn reduce_rational(num: &mut i64, den: &mut i64)
    requires
        *old(num) > i64::MIN,
        *old(den) > i64::MIN,
    ensures
        *old(den) == 0 ==> *final(num) == *old(num) && *final(den) == *old(den),
        *old(den) != 0 ==> reduces_to(
            *old(num) as int,
            *old(den) as int,
            *final(num) as int,
            *final(den) as int,
        ),
{
    muldiv_rational(num, den, 1, 1);
}

/// Adds the rational `addnum / addden` to the rational held in `num / den`
/// and reduces the result. An invalid rational (zero denominator) is left
/// untouched.
pub fn add_rational(num: &mut i64, den: &mut i64, addnum: i64, addden: i64)
    requires
        *old(den) != 0 && *old(den) == addden ==> i64::MIN < *old(num) + addnum <= i64::MAX,
        *old(den) != 0 && *old(den) != addden ==> {
            &&& -0x7fff_ffff_ffff_ffff <= (*old(num)) * addden <= 0x7fff_ffff_ffff_ffff
            &&& -0x7fff_ffff_ffff_ffff <= addnum * (*old(den)) <= 0x7fff_ffff_ffff_ffff
            &&& -0x7fff_ffff_ffff_ffff <= (*old(num)) * addden + addnum * (*old(den))
                <= 0x7fff_ffff_ffff_ffff
            &&& -0x7fff_ffff_ffff_ffff <= (*old(den)) * addden <= 0x7fff_ffff_ffff_ffff
        },
    ensures
        *old(den) == 0 ==> *final(num) == *old(num) && *final(den) == *old(den),
        *old(den) != 0 && *old(den) == addden ==> *final(num) == *old(num) + addnum && *final(den)
            == *old(den),
        *old(den) != 0 && *old(den) != addden ==> ({
            let n = (*old(num)) * addden + addnum * (*old(den));
            let d = (*old(den)) * addden;
            &&& addden == 0 ==> *final(num) == n && *final(den) == 0
            &&& addden != 0 ==> reduces_to(n, d, *final(num) as int, *final(den) as int)
        }),
{
    if *den == 0 {
        return ;
    }
    if *den == addden {
        *num = *num + addnum;
    } else {
        proof {
            let d0 = *old(den) as int;
            let ad = addden as int;
            if addden != 0 {
                assert(d0 * ad != 0) by (nonlinear_arith)
                    requires
                        d0 != 0,
                        ad != 0,
                ;
            }
        }
        let extra = addnum * *den;
        *num = *num * addden;
        *den = *den * addden;
        *num = *num + extra;
        reduce_rational(num, den);
    }
}

/// A 64-bit value clamped to the 32-bit range.
pub open spec fn i32_saturated(x: int) -> int {
    if x > i32::MAX {
        i32::MAX as int
    } else if x < i32::MIN {
        i32::MIN as int
    } else {
        x
    }
}

/// Converts a 64-bit integer to a 32-bit integer with saturation.
pub fn int64_to_int_s(i: i64) -> (r: i32)
    ensures
        r == i32_saturated(i as int),
{
    if i > i32::MAX as i64 {
        i32::MAX
    } else if i < i32::MIN as i64 {
        i32::MIN
    } else {
        i as i32
    }
}

} // verus!
