//! Laying out the mandala: spoke angles and ring radii.
//!
//! A plan holds everything the drawing step needs: the resolved anchor and
//! span, `lines + 1` spoke angles as exact rationals in degrees, and
//! `rings + 1` ring radii in whole pixels. The counts are deliberately one
//! more than the parameters: a zero-radius ring and the full-radius ring
//! are both drawn, and so are the spokes at both ends of the span. A count
//! of zero draws exactly one element, at the base angle and at radius zero.

use vstd::arithmetic::div_mod::lemma_basic_div;
use vstd::arithmetic::div_mod::lemma_div_is_ordered;
use vstd::arithmetic::div_mod::lemma_div_multiples_vanish_fancy;
use vstd::arithmetic::mul::lemma_mul_basics;
use vstd::arithmetic::mul::lemma_mul_is_distributive_add;
use vstd::arithmetic::mul::lemma_mul_is_distributive_sub_other_way;
use vstd::arithmetic::mul::lemma_mul_upper_bound;
use vstd::prelude::*;

use crate::modes::resolution_matches;
use crate::modes::spec_end_deg;
use crate::modes::spec_parse_mode;
use crate::modes::spec_radius;
use crate::modes::spec_start_deg;
use crate::modes::CenterMode;
use crate::modes::Resolution;
use crate::page::PageGeometry;

verus! {

/// A spoke's angle in degrees, as the exact rational `num / den`.
#[derive(Clone, Copy, Debug, PartialEq, Eq, Structural)]
pub struct SpokeAngle {
    /// Numerator of the angle in degrees.
    pub num: i128,
    /// Denominator of the angle in degrees: the spoke count, or 1 for zero spokes.
    pub den: u32,
}

/// Denominator of the spoke angles: the spoke count, with a count of zero
/// drawing a single spoke at the base angle.
pub open spec fn spec_spoke_den(lines: u32) -> int {
    if lines == 0 {
        1int
    } else {
        lines as int
    }
}

/// Numerator of spoke `i`'s angle in degrees over `spec_spoke_den(lines)`:
/// the angle itself is `start + (end - start) * i / lines`.
pub open spec fn spec_spoke_num(start: int, end: int, lines: u32, i: int) -> int {
    start * spec_spoke_den(lines) + (end - start) * i
}

/// Denominator of the ring radius fractions: the ring count, with a count
/// of zero drawing a single ring at radius zero.
pub open spec fn spec_ring_den(rings: u32) -> int {
    if rings == 0 {
        1int
    } else {
        rings as int
    }
}

/// Radius of ring `i`: `radius / rings * i`, rounded half-up to the nearest
/// whole pixel.
pub open spec fn spec_ring_radius(radius: int, rings: u32, i: int) -> int {
    (2 * (radius * i) + spec_ring_den(rings)) / (2 * spec_ring_den(rings))
}

/// Lay out the `lines + 1` spoke angles, evenly spaced from `start_deg` to
/// `end_deg` in degrees.
pub fn spoke_angles(lines: u32, start_deg: i32, end_deg: i32) -> (out: Vec<SpokeAngle>)
    ensures
        out@.len() == lines + 1,
        forall|i: int|
            0 <= i < out@.len() ==> (#[trigger] out@[i]).num as int == spec_spoke_num(
                start_deg as int,
                end_deg as int,
                lines,
                i,
            ),
        forall|i: int| 0 <= i < out@.len() ==> (#[trigger] out@[i]).den as int == spec_spoke_den(lines),
        out@[0].num as int == start_deg as int * spec_spoke_den(lines),
        1 <= lines ==> out@[lines as int].num as int == end_deg as int * spec_spoke_den(lines),
{
    let den: u32 = if lines == 0 {
        1
    } else {
        lines
    };
    let count: u64 = lines as u64 + 1;
    proof {
        assert((-0x8000_0000_0000_0000int) <= (start_deg as int) * (den as int)
            <= 0x8000_0000_0000_0000int) by (nonlinear_arith)
            requires
                -0x8000_0000 <= start_deg as int <= 0x7fff_ffff,
                0 <= den as int <= 0xffff_ffff,
        ;
    }
    let base: i128 = (start_deg as i128) * (den as i128);
    let range: i128 = (end_deg as i128) - (start_deg as i128);
    let mut out: Vec<SpokeAngle> = Vec::new();
    let mut i: u64 = 0;
    while i < count
        invariant
            count == lines as int + 1,
            den as int == spec_spoke_den(lines),
            base as int == (start_deg as int) * (den as int),
            range as int == end_deg as int - start_deg as int,
            -0x8000_0000_0000_0000 <= base as int <= 0x8000_0000_0000_0000,
            i <= count,
            out@.len() == i,
            forall|j: int|
                0 <= j < i ==> (#[trigger] out@[j]).num as int == spec_spoke_num(
                    start_deg as int,
                    end_deg as int,
                    lines,
                    j,
                ),
            forall|j: int| 0 <= j < i ==> (#[trigger] out@[j]).den as int == spec_spoke_den(lines),
        decreases count - i,
    {
        proof {
            assert((-0x1_0000_0000_0000_0000int) <= (range as int) * (i as int)
                <= 0x1_0000_0000_0000_0000int) by (nonlinear_arith)
                requires
                    -0x1_0000_0000 <= range as int <= 0x1_0000_0000,
                    0 <= i as int <= 0xffff_ffff,
            ;
        }
        let num: i128 = base + range * (i as i128);
        out.push(SpokeAngle { num, den });
        i += 1;
    }
    proof {
        assert((end_deg as int - start_deg as int) * 0 == 0) by (nonlinear_arith);
        if 1 <= lines {
            lemma_spoke_angles_evenly_spaced(start_deg as int, end_deg as int, lines);
        }
    }
    out
}

/// Lay out the `rings + 1` ring radii, each the rounded fraction
/// `radius / rings * i` of the radius bound.
pub fn ring_radii(rings: u32, radius: i32) -> (out: Vec<i32>)
    requires
        0 <= radius,
    ensures
        out@.len() == rings + 1,
        forall|i: int|
            0 <= i < out@.len() ==> (#[trigger] out@[i]) as int == spec_ring_radius(
                radius as int,
                rings,
                i,
            ),
        forall|i: int| 0 <= i < out@.len() ==> 0 <= #[trigger] out@[i] <= radius,
        out@[0] == 0,
        1 <= rings ==> out@[rings as int] == radius,
        forall|i: int, j: int|
            #![trigger out@[i], out@[j]]
            0 <= i <= j < out@.len() ==> out@[i] <= out@[j],
{
    let den: u64 = if rings == 0 {
        1
    } else {
        rings as u64
    };
    let count: u64 = rings as u64 + 1;
    let mut out: Vec<i32> = Vec::new();
    let mut i: u64 = 0;
    while i < count
        invariant
            count == rings as int + 1,
            den as int == spec_ring_den(rings),
            0 <= radius,
            i <= count,
            out@.len() == i,
            forall|j: int|
                0 <= j < i ==> (#[trigger] out@[j]) as int == spec_ring_radius(
                    radius as int,
                    rings,
                    j,
                ),
            forall|j: int| 0 <= j < i ==> 0 <= #[trigger] out@[j] <= radius,
        decreases count - i,
    {
        proof {
            assert(i as int <= den as int);
            lemma_mul_upper_bound(radius as int, 0x7fff_ffff, i as int, 0xffff_ffff);
        }
        let a: u64 = (radius as u64) * i;
        let num: u64 = 2 * a + den;
        let r64: u64 = num / (2 * den);
        proof {
            let ri = radius as int;
            let ii = i as int;
            let d = den as int;
            assert(0 <= 2 * (ri * ii) + d <= (2 * d) * ri + d) by (nonlinear_arith)
                requires
                    0 <= ri,
                    0 <= ii,
                    ii <= d,
                    1 <= d,
            ;
            lemma_div_multiples_vanish_fancy(ri, d, 2 * d);
            lemma_div_is_ordered(2 * (ri * ii) + d, (2 * d) * ri + d, 2 * d);
        }
        out.push(r64 as i32);
        i += 1;
    }
    proof {
        assert((radius as int) * 0 == 0) by (nonlinear_arith);
        if 1 <= rings {
            lemma_ring_radii_shape(radius as int, rings);
        } else {
            lemma_basic_div(1, 2);
        }
    }
    out
}

/// Law: for a radius bound and a ring count of at least one, the ring radii
/// start at exactly 0, end at exactly the radius bound, and never decrease
/// from one ring to the next.
pub proof fn lemma_ring_radii_shape(radius: int, rings: u32)
    requires
        0 <= radius,
        1 <= rings,
    ensures
        spec_ring_radius(radius, rings, 0) == 0,
        spec_ring_radius(radius, rings, rings as int) == radius,
        forall|i: int, j: int|
            0 <= i <= j <= rings as int ==> spec_ring_radius(radius, rings, i) <= spec_ring_radius(
                radius,
                rings,
                j,
            ),
{
    let d = spec_ring_den(rings);
    assert(radius * 0 == 0) by (nonlinear_arith);
    lemma_basic_div(d, 2 * d);
    lemma_div_multiples_vanish_fancy(radius, d, 2 * d);
    assert(2 * (radius * (rings as int)) + d == (2 * d) * radius + d) by (nonlinear_arith)
        requires
            d == rings as int,
    ;
    assert forall|i: int, j: int| 0 <= i <= j <= rings as int implies spec_ring_radius(
        radius,
        rings,
        i,
    ) <= spec_ring_radius(radius, rings, j) by {
        assert(0 <= 2 * (radius * i) + d <= 2 * (radius * j) + d) by (nonlinear_arith)
            requires
                0 <= radius,
                0 <= i,
                i <= j,
                1 <= d,
        ;
        lemma_div_is_ordered(2 * (radius * i) + d, 2 * (radius * j) + d, 2 * d);
    }
}

/// Law: for a spoke count of at least one, consecutive spoke-angle
/// numerators differ by exactly `end - start` - over the common denominator
/// `lines`, the angles are evenly spaced by `(end - start) / lines` - and
/// the first spoke stands at exactly the start angle, the last at exactly
/// the end angle.
pub proof fn lemma_spoke_angles_evenly_spaced(start: int, end: int, lines: u32)
    requires
        1 <= lines,
    ensures
        forall|i: int|
            0 <= i < lines as int ==> spec_spoke_num(start, end, lines, i + 1) - #[trigger] spec_spoke_num(
                start,
                end,
                lines,
                i,
            ) == end - start,
        spec_spoke_num(start, end, lines, 0) == start * spec_spoke_den(lines),
        spec_spoke_num(start, end, lines, lines as int) == end * spec_spoke_den(lines),
{
    let d = spec_spoke_den(lines);
    assert forall|i: int| 0 <= i < lines as int implies spec_spoke_num(start, end, lines, i + 1)
        - #[trigger] spec_spoke_num(start, end, lines, i) == end - start by {
        lemma_mul_is_distributive_add(end - start, i, 1);
        lemma_mul_basics(end - start);
    }
    assert((end - start) * 0 == 0) by (nonlinear_arith);
    lemma_mul_is_distributive_sub_other_way(d, end, start);
}

/// The complete layout of one mandala.
pub struct MandalaPlan {
    /// The resolved anchor, span, radius bound and ring shape.
    pub resolution: Resolution,
    /// The `lines + 1` spoke angles, in increasing order.
    pub spokes: Vec<SpokeAngle>,
    /// The `rings + 1` ring radii, in increasing order.
    pub radii: Vec<i32>,
}

/// Generate the mandala's layout: resolve the center token's mode on the
/// page, then lay out `lines + 1` spokes evenly across the angular span and
/// `rings + 1` rings up to the radius bound. An unrecognized token behaves
/// exactly like `"center"`.
pub fn generate(g: &PageGeometry, rings: u32, lines: u32, center: &str) -> (p: MandalaPlan)
    requires
        g.wf(),
    ensures
        ({
            let mode = spec_parse_mode(center@);
            &&& resolution_matches(p.resolution, mode, *g)
            &&& p.spokes@.len() == lines + 1
            &&& forall|i: int|
                0 <= i < p.spokes@.len() ==> (#[trigger] p.spokes@[i]).num as int == spec_spoke_num(
                    spec_start_deg(mode),
                    spec_end_deg(mode),
                    lines,
                    i,
                )
            &&& forall|i: int|
                0 <= i < p.spokes@.len() ==> (#[trigger] p.spokes@[i]).den as int == spec_spoke_den(
                    lines,
                )
            &&& p.radii@.len() == rings + 1
            &&& forall|i: int|
                0 <= i < p.radii@.len() ==> (#[trigger] p.radii@[i]) as int == spec_ring_radius(
                    spec_radius(mode, *g),
                    rings,
                    i,
                )
            &&& forall|i: int| 0 <= i < p.radii@.len() ==> 0 <= #[trigger] p.radii@[i]
            &&& p.spokes@[0].num as int == spec_start_deg(mode) * spec_spoke_den(lines)
            &&& (1 <= lines ==> p.spokes@[lines as int].num as int == spec_end_deg(mode)
                * spec_spoke_den(lines))
            &&& p.radii@[0] == 0
            &&& (1 <= rings ==> p.radii@[rings as int] as int == spec_radius(mode, *g))
            &&& forall|i: int, j: int|
                #![trigger p.radii@[i], p.radii@[j]]
                0 <= i <= j < p.radii@.len() ==> p.radii@[i] <= p.radii@[j]
        }),
{
    let mode = CenterMode::parse(center);
    let res = crate::modes::resolve(mode, g);
    let spokes = spoke_angles(lines, res.start_deg, res.end_deg);
    let radii = ring_radii(rings, res.radius);
    MandalaPlan { resolution: res, spokes, radii }
}

} // verus!
