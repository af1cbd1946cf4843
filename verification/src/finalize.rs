//! Result finalization. After the readback, every accumulator element is
//! divided, lane by lane, by the sample count — by the sample count alone,
//! never by the bounce count: the shading kernel's own weighting is relied
//! on for bounce contributions — and the first three lanes of each pixel
//! are then flattened into one linear RGB array for the encoder.
//!
//! Lanes are raw IEEE-754 bit patterns throughout; the one float operation,
//! the division itself, is glam's. With at least one sample the divisor is a
//! finite positive value, so a non-NaN lane has a single well-determined
//! quotient, which is named here, never restated. A NaN lane yields a NaN
//! whose sign and payload bits are not determined — they may differ between
//! machines and even between two evaluations — so of such a lane the
//! contracts say only that some NaN pattern comes back.
use vstd::prelude::*;

use crate::records::Vec4Bits;

verus! {

/// Whether `b` is the bit pattern of an IEEE-754 single-precision NaN:
/// exponent bits all ones and a nonzero mantissa.
pub open spec fn is_nan_bits(b: u32) -> bool {
    ((b >> 23) & 0xff) == 0xff && (b & 0x007f_ffff) != 0
}

/// The raw bits of the IEEE-754 single-precision quotient: `lane`, read as a
/// float, divided by the float value of `samples`. Applied only to a non-NaN
/// lane and a positive sample count, where the quotient is a single
/// well-determined pattern; what it is on given values only the division
/// itself says.
pub uninterp spec fn div_bits(lane: u32, samples: u32) -> u32;

/// How one normalized lane relates to the accumulated lane it came from:
/// a non-NaN lane becomes exactly its named quotient by the sample count; a
/// NaN lane becomes some NaN pattern, its exact bits unpinned.
pub open spec fn normalized_lane(lane: u32, samples: u32, out: u32) -> bool {
    if is_nan_bits(lane) {
        is_nan_bits(out)
    } else {
        out == div_bits(lane, samples)
    }
}

/// How a whole normalized pixel relates to its accumulated record.
pub open spec fn normalized_pixel(acc: Vec4Bits, samples: u32, out: Vec4Bits) -> bool {
    &&& normalized_lane(acc.x, samples, out.x)
    &&& normalized_lane(acc.y, samples, out.y)
    &&& normalized_lane(acc.z, samples, out.z)
    &&& normalized_lane(acc.w, samples, out.w)
}

/// Relies on glam's `Vec4` division (componentwise IEEE-754 single-precision
/// division) and on bytemuck's `cast`, which moves the raw bits between
/// `UVec4` and `Vec4` unchanged; `UVec4::as_vec4` turns the sample count
/// into its float value. With at least one sample the divisor is finite and
/// positive, so each non-NaN lane divides to the one quotient pattern the
/// name stands for, and a NaN lane propagates to a NaN whose exact bits
/// IEEE-754 leaves open.
#[verifier::external_body]
fn div_lanes_by_samples(v: &Vec4Bits, samples: u32) -> (r: Vec4Bits)
    requires
        samples >= 1,
    ensures
        !is_nan_bits(v.x) ==> r.x == div_bits(v.x, samples),
        !is_nan_bits(v.y) ==> r.y == div_bits(v.y, samples),
        !is_nan_bits(v.z) ==> r.z == div_bits(v.z, samples),
        !is_nan_bits(v.w) ==> r.w == div_bits(v.w, samples),
        is_nan_bits(v.x) ==> is_nan_bits(r.x),
        is_nan_bits(v.y) ==> is_nan_bits(r.y),
        is_nan_bits(v.z) ==> is_nan_bits(r.z),
        is_nan_bits(v.w) ==> is_nan_bits(r.w),
{
    let num: glam::Vec4 = bytemuck::cast(glam::UVec4::new(v.x, v.y, v.z, v.w));
    let den: glam::Vec4 = glam::UVec4::splat(samples).as_vec4();
    let out: glam::UVec4 = bytemuck::cast(num / den);
    Vec4Bits { x: out.x, y: out.y, z: out.z, w: out.w }
}

/// Normalizes the read-back accumulator: every lane of every element becomes
/// its own quotient by the sample count (a NaN lane stays a NaN).
pub fn normalize_accumulator(accumulator: &Vec<Vec4Bits>, samples: u32) -> (out: Vec<Vec4Bits>)
    requires
        samples >= 1,
    ensures
        out@.len() == accumulator@.len(),
        forall|i: int|
            0 <= i < accumulator@.len() ==> normalized_pixel(accumulator@[i], samples, out@[i]),
{
    let mut out: Vec<Vec4Bits> = Vec::new();
    let mut i: usize = 0;
    while i < accumulator.len()
        invariant
            samples >= 1,
            i <= accumulator@.len(),
            out@.len() == i,
            forall|j: int| 0 <= j < i ==> normalized_pixel(accumulator@[j], samples, out@[j]),
        decreases accumulator@.len() - i,
    {
        out.push(div_lanes_by_samples(&accumulator[i], samples));
        i = i + 1;
    }
    out
}

/// Flattens per-pixel records into one linear RGB array: three lanes per
/// pixel, in pixel order, the reserved fourth lane dropped.
pub fn flatten_rgb(pixels: &Vec<Vec4Bits>) -> (out: Vec<u32>)
    ensures
        out@.len() == pixels@.len() * 3,
        forall|i: int| 0 <= i < pixels@.len() ==> {
            &&& out@[3 * i] == pixels@[i].x
            &&& out@[3 * i + 1] == pixels@[i].y
            &&& out@[3 * i + 2] == pixels@[i].z
        },
{
    let mut out: Vec<u32> = Vec::new();
    let mut i: usize = 0;
    while i < pixels.len()
        invariant
            i <= pixels@.len(),
            out@.len() == i * 3,
            forall|j: int| 0 <= j < i ==> {
                &&& out@[3 * j] == pixels@[j].x
                &&& out@[3 * j + 1] == pixels@[j].y
                &&& out@[3 * j + 2] == pixels@[j].z
            },
        decreases pixels@.len() - i,
    {
        let p = pixels[i];
        out.push(p.x);
        out.push(p.y);
        out.push(p.z);
        i = i + 1;
    }
    out
}

/// The whole finalization of one run: normalize the accumulator by the
/// sample count and flatten to linear RGB. Element `3 * i + c` of the result
/// is lane `c` of pixel `i`'s accumulated radiance divided by the sample
/// count (a NaN lane stays a NaN).
pub fn finalize_image(accumulator: &Vec<Vec4Bits>, samples: u32) -> (out: Vec<u32>)
    requires
        samples >= 1,
    ensures
        out@.len() == accumulator@.len() * 3,
        forall|i: int| 0 <= i < accumulator@.len() ==> {
            &&& normalized_lane(accumulator@[i].x, samples, out@[3 * i])
            &&& normalized_lane(accumulator@[i].y, samples, out@[3 * i + 1])
            &&& normalized_lane(accumulator@[i].z, samples, out@[3 * i + 2])
        },
{
    let normalized = normalize_accumulator(accumulator, samples);
    let out = flatten_rgb(&normalized);
    proof {
        assert forall|i: int| 0 <= i < accumulator@.len() implies {
            &&& normalized_lane(accumulator@[i].x, samples, out@[3 * i])
            &&& normalized_lane(accumulator@[i].y, samples, out@[3 * i + 1])
            &&& normalized_lane(accumulator@[i].z, samples, out@[3 * i + 2])
        } by {
            assert(normalized_pixel(accumulator@[i], samples, normalized@[i]));
            assert(out@[3 * i] == normalized@[i].x);
            assert(out@[3 * i + 1] == normalized@[i].y);
            assert(out@[3 * i + 2] == normalized@[i].z);
        }
    }
    out
}

/// Index of pixel `(x, y)` in every shared buffer and in the read-back
/// image: row-major, `y * width + x`.
pub fn pixel_index(x: u32, y: u32, width: u32) -> (i: u64)
    requires
        x < width,
    ensures
        i == y as int * width as int + x as int,
{
    proof {
        assert(y as int * width as int + x as int <= u64::MAX as int) by (nonlinear_arith)
            requires y <= u32::MAX && width <= u32::MAX && x < width;
    }
    y as u64 * width as u64 + x as u64
}

} // verus!
