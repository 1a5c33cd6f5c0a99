//! Center-placement modes and their resolution.
//!
//! A mode token selects where the pattern is anchored, which angular span
//! the spokes cover, and how large the outermost ring may grow. An
//! unrecognized token deliberately falls back to the `Center` behaviour;
//! that is a permissive default, not an error path.

use vstd::prelude::*;

use crate::page::PageGeometry;
use crate::page::PagePoint;

verus! {

/// Where the mandala is anchored on the page.
#[derive(Clone, Copy, Debug, PartialEq, Eq, Structural)]
pub enum CenterMode {
    /// Anchored at the page center; spokes sweep a full circle.
    Center,
    /// Anchored at the middle of the left border; spokes sweep a half circle.
    Edge,
    /// Anchored at the top-left corner; spokes sweep a quarter circle.
    Corner,
}

/// Compare two string slices by value.
pub fn str_eq(a: &str, b: &str) -> (r: bool)
    ensures
        r == (a@ == b@),
{
    let ab = a.as_bytes();
    let bb = b.as_bytes();
    if ab.len() != bb.len() {
        return false;
    }
    let n = ab.len();
    let mut i: usize = 0;
    while i < n
        invariant
            n == ab@.len(),
            n == bb@.len(),
            i <= n,
            ab@ == vstd::utf8::encode_utf8(a@),
            bb@ == vstd::utf8::encode_utf8(b@),
            forall|j: int| 0 <= j < i ==> ab@[j] == bb@[j],
        decreases n - i,
    {
        if ab[i] != bb[i] {
            return false;
        }
        i += 1;
    }
    proof {
        assert(ab@ =~= bb@);
        vstd::utf8::encode_utf8_decode_utf8(a@);
        vstd::utf8::encode_utf8_decode_utf8(b@);
    }
    true
}

/// What a mode token means: `"edge"` and `"corner"` select their modes,
/// every other token (including `"center"`) selects `Center`.
pub open spec fn spec_parse_mode(token: Seq<char>) -> CenterMode {
    if token == "edge"@ {
        CenterMode::Edge
    } else if token == "corner"@ {
        CenterMode::Corner
    } else {
        CenterMode::Center
    }
}

impl CenterMode {
    /// Resolve a mode token; an unrecognized token falls back to `Center`.
    pub fn parse(token: &str) -> (m: CenterMode)
        ensures
            m == spec_parse_mode(token@),
    {
        if str_eq(token, "edge") {
            CenterMode::Edge
        } else if str_eq(token, "corner") {
            CenterMode::Corner
        } else {
            CenterMode::Center
        }
    }
}

/// Every token other than `"edge"` and `"corner"` - in particular an
/// unrecognized one such as `"bogus"` - resolves to exactly the mode of the
/// `"center"` token, so the whole generated pattern is identical to the
/// `"center"` pattern.
pub proof fn lemma_unrecognized_token_is_center(token: Seq<char>)
    requires
        token != "edge"@,
        token != "corner"@,
    ensures
        spec_parse_mode(token) == spec_parse_mode("center"@),
        spec_parse_mode(token) == CenterMode::Center,
{
    reveal_strlit("center");
    reveal_strlit("edge");
    reveal_strlit("corner");
    assert("center"@.len() != "edge"@.len());
    assert("center"@[1] == 'e' && "corner"@[1] == 'o');
}

/// The resolved generation parameters for one mode on one page.
#[derive(Clone, Copy, Debug, PartialEq, Eq, Structural)]
pub struct Resolution {
    /// Anchor point of the pattern.
    pub center: PagePoint,
    /// Angle of the first spoke, in degrees.
    pub start_deg: i32,
    /// Angle of the last spoke, in degrees.
    pub end_deg: i32,
    /// Radius bound of the outermost ring, in pixels.
    pub radius: i32,
    /// True when rings are full circles rather than arcs.
    pub full_circle: bool,
}

/// Anchor abscissa per mode: the left border for `Edge` and `Corner`,
/// the page center for `Center`.
pub open spec fn spec_anchor_x(mode: CenterMode, g: PageGeometry) -> int {
    match mode {
        CenterMode::Edge => g.left as int,
        CenterMode::Corner => g.left as int,
        CenterMode::Center => g.spec_center_x(),
    }
}

/// Anchor ordinate per mode: the vertical middle for `Edge` and `Center`,
/// the top border for `Corner`.
pub open spec fn spec_anchor_y(mode: CenterMode, g: PageGeometry) -> int {
    match mode {
        CenterMode::Edge => g.spec_center_y(),
        CenterMode::Corner => g.top as int,
        CenterMode::Center => g.spec_center_y(),
    }
}

/// Start of the angular span, in degrees.
pub open spec fn spec_start_deg(mode: CenterMode) -> int {
    match mode {
        CenterMode::Edge => -90,
        CenterMode::Corner => 0,
        CenterMode::Center => 0,
    }
}

/// End of the angular span, in degrees.
pub open spec fn spec_end_deg(mode: CenterMode) -> int {
    match mode {
        CenterMode::Edge => 90,
        CenterMode::Corner => 90,
        CenterMode::Center => 360,
    }
}

/// The smaller of two integers.
pub open spec fn spec_min(a: int, b: int) -> int {
    if a < b {
        a
    } else {
        b
    }
}

/// Radius bound per mode. `Edge` reaches the other side of the page or half
/// its height, `Corner` the shorter of the two display dimensions, and
/// `Center` half of that.
pub open spec fn spec_radius(mode: CenterMode, g: PageGeometry) -> int {
    match mode {
        CenterMode::Edge => spec_min(g.spec_display_width(), g.spec_display_height() / 2),
        CenterMode::Corner => spec_min(g.spec_display_width(), g.spec_display_height()),
        CenterMode::Center => spec_min(g.spec_display_width(), g.spec_display_height()) / 2,
    }
}

/// The full resolution table of one mode on one page.
pub open spec fn resolution_matches(r: Resolution, mode: CenterMode, g: PageGeometry) -> bool {
    &&& r.center.x as int == spec_anchor_x(mode, g)
    &&& r.center.y as int == spec_anchor_y(mode, g)
    &&& r.start_deg as int == spec_start_deg(mode)
    &&& r.end_deg as int == spec_end_deg(mode)
    &&& r.radius as int == spec_radius(mode, g)
    &&& r.full_circle == (mode == CenterMode::Center)
}

fn min_i32(a: i32, b: i32) -> (m: i32)
    ensures
        m as int == spec_min(a as int, b as int),
{
    if a < b {
        a
    } else {
        b
    }
}

/// Resolve one mode on one page: anchor point, angular span, radius bound
/// and ring shape, exactly as the table in `resolution_matches` states.
pub fn resolve(mode: CenterMode, g: &PageGeometry) -> (r: Resolution)
    requires
        g.wf(),
    ensures
        resolution_matches(r, mode, *g),
        0 <= r.radius,
        r.start_deg <= r.end_deg,
{
    let dw = g.display_width_px();
    let dh = g.display_height_px();
    match mode {
        CenterMode::Edge => Resolution {
            center: g.center_left(),
            start_deg: -90,
            end_deg: 90,
            radius: min_i32(dw, dh / 2),
            full_circle: false,
        },
        CenterMode::Corner => Resolution {
            center: g.top_left(),
            start_deg: 0,
            end_deg: 90,
            radius: min_i32(dw, dh),
            full_circle: false,
        },
        CenterMode::Center => Resolution {
            center: g.center(),
            start_deg: 0,
            end_deg: 360,
            radius: min_i32(dw, dh) / 2,
            full_circle: true,
        },
    }
}

} // verus!
