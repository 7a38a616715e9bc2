//! Piecewise-linear weight interpolation shared by the platform converters.
//!
//! Each platform maps its native weight scale onto the canonical one through a
//! sorted table of `(native value, canonical weight)` reference points. An
//! input at or below the first point saturates to the first point's weight, an
//! input beyond the last point saturates to the last point's weight, an input
//! within a platform tolerance of a point snaps to that point's weight, and
//! any other input is interpolated linearly inside its segment.

use vstd::arithmetic::div_mod::lemma_fundamental_div_mod;
use vstd::prelude::*;

verus! {

/// Largest magnitude a table's native values may have.
pub const TABLE_NATIVE_LIMIT: i64 = 10_000_000;

/// Largest canonical weight (in thousandths) a table may map to.
pub const TABLE_WEIGHT_LIMIT: i64 = 1_000_000;

/// `a` lies within `tol` of `b`.
pub open spec fn close_to(a: i64, b: i64, tol: i64) -> bool {
    -(tol as int) <= a - b && a - b <= tol as int
}

/// The canonical weight of native value `w` on the linear segment between the
/// reference points `(a_n, a_c)` and `(b_n, b_c)`, rounded down to a whole
/// thousandth.
pub open spec fn segment_value(a_n: i64, a_c: i64, b_n: i64, b_c: i64, w: i64) -> int {
    a_c + (w - a_n) * (b_c - a_c) / (b_n - a_n)
}

/// A usable reference table: at least two points, native values strictly
/// ascending with gaps wide enough that tolerance regions cannot overlap,
/// canonical weights strictly ascending at least as fast as the native values
/// (so interpolation inside a segment cannot collapse onto an endpoint), and
/// every value small enough that the fixed-point arithmetic stays in `i64`.
pub open spec fn wf_table(table: Seq<(i64, i64)>, tol: i64) -> bool {
    &&& 2 <= table.len()
    &&& 0 <= tol
    &&& forall|i: int|
        0 <= i < table.len() ==> -TABLE_NATIVE_LIMIT <= (#[trigger] table[i]).0
            <= TABLE_NATIVE_LIMIT
    &&& forall|i: int| 0 <= i < table.len() ==> 0 <= (#[trigger] table[i]).1 <= TABLE_WEIGHT_LIMIT
    &&& forall|i: int|
        0 <= i < table.len() - 1 ==> (#[trigger] table[i]).0 + 2 * tol < table[i + 1].0
    &&& forall|i: int|
        0 <= i < table.len() - 1 ==> table[i + 1].0 - (#[trigger] table[i]).0 <= table[i + 1].1
            - table[i].1
}

/// Scan of the table upward from entry `i`, every earlier entry having been
/// ruled out: the first entry within tolerance of `w` yields its weight, the
/// first entry whose native value exceeds `w` selects the segment ending at
/// it, and a scan that runs off the end yields the last entry's weight.
pub open spec fn interp_from(table: Seq<(i64, i64)>, tol: i64, w: i64, i: int) -> int
    decreases table.len() - i,
{
    if i < 0 || i >= table.len() {
        table[table.len() - 1].1 as int
    } else if close_to(w, table[i].0, tol) {
        table[i].1 as int
    } else if w < table[i].0 {
        segment_value(table[i - 1].0, table[i - 1].1, table[i].0, table[i].1, w)
    } else {
        interp_from(table, tol, w, i + 1)
    }
}

/// Canonical weight of native value `w` under `table`: the floor weight at or
/// below the first reference point, otherwise the result of the ascending
/// scan.
pub open spec fn interp_weight(table: Seq<(i64, i64)>, tol: i64, w: i64) -> int {
    if w <= table[0].0 {
        table[0].1 as int
    } else {
        interp_from(table, tol, w, 0)
    }
}

/// Native values and canonical weights both grow along a usable table.
pub proof fn lemma_table_ordered(table: Seq<(i64, i64)>, tol: i64, j: int, k: int)
    requires
        wf_table(table, tol),
        0 <= j <= k < table.len(),
    ensures
        table[j].0 <= table[k].0,
        table[j].1 <= table[k].1,
        j < k ==> table[j].0 + 2 * tol < table[k].0,
        table[k].0 - table[j].0 <= table[k].1 - table[j].1,
    decreases k - j,
{
    if j < k {
        lemma_table_ordered(table, tol, j, k - 1);
        assert(table[k - 1].0 + 2 * tol < table[k].0);
        assert(table[k].0 - table[k - 1].0 <= table[k].1 - table[k - 1].1);
    }
}

/// Entries strictly below `i` that lie more than `tol` under `w` do not
/// change the scan: starting it at `i` yields the same weight.
proof fn lemma_scan_prefix(table: Seq<(i64, i64)>, tol: i64, w: i64, i: int)
    requires
        wf_table(table, tol),
        0 <= i <= table.len(),
        forall|j: int| 0 <= j < i ==> w > (#[trigger] table[j]).0 + tol,
    ensures
        interp_from(table, tol, w, 0) == interp_from(table, tol, w, i),
    decreases i,
{
    if i > 0 {
        lemma_scan_prefix(table, tol, w, i - 1);
        assert(w > table[i - 1].0 + tol);
        assert(!close_to(w, table[i - 1].0, tol));
        assert(interp_from(table, tol, w, i - 1) == interp_from(table, tol, w, i));
    }
}

/// `a` lies within `tol` of `b`. A difference that leaves the `i64` range is
/// beyond any representable tolerance.
pub fn roughly_eq(a: i64, b: i64, tol: i64) -> (r: bool)
    ensures
        r == close_to(a, b, tol),
{
    if tol < 0 {
        return false;
    }
    match a.checked_sub(b) {
        Some(d) => -tol <= d && d <= tol,
        None => false,
    }
}

/// Bounds of a rounded-down interpolation quotient: with `0 < x <= d` and
/// `0 <= y`, the quotient `x * y / d` stays within `[0, y]`, is at least `1`
/// once `x * y >= d`, and is at most `y - 1` once `x < d` and `d <= y`.
proof fn lemma_quotient_bounds(x: int, y: int, d: int)
    requires
        0 < d,
        0 < x <= d,
        0 <= y,
    ensures
        0 <= x * y / d <= y,
        y >= d ==> 1 <= x * y / d,
        (x < d && d <= y) ==> x * y / d <= y - 1,
{
    let q = x * y / d;
    let r = (x * y) % d;
    lemma_fundamental_div_mod(x * y, d);
    assert(x * y == d * q + r);
    assert(0 <= r < d);
    assert(0 <= x * y <= d * y) by (nonlinear_arith)
        requires
            0 < x <= d,
            0 <= y,
    ;
    assert(0 <= q) by (nonlinear_arith)
        requires
            d * q + r == x * y,
            0 <= x * y,
            0 <= r < d,
            0 < d,
    ;
    assert(q <= y) by (nonlinear_arith)
        requires
            d * q + r == x * y,
            x * y <= d * y,
            0 <= r,
            0 < d,
    ;
    if y >= d {
        assert(x * y >= d) by (nonlinear_arith)
            requires
                1 <= x,
                y >= d,
                0 < d,
        ;
        assert(1 <= q) by (nonlinear_arith)
            requires
                d * q + r == x * y,
                x * y >= d,
                r < d,
                0 < d,
        ;
    }
    if x < d && d <= y {
        assert(x * y <= d * y - d) by (nonlinear_arith)
            requires
                x <= d - 1,
                d <= y,
                0 < d,
        ;
        assert(q <= y - 1) by (nonlinear_arith)
            requires
                d * q + r == x * y,
                x * y <= d * y - d,
                0 <= r,
                0 < d,
        ;
    }
}

/// The linear interpolation step inside one segment, in `i64` arithmetic.
fn segment_interpolate(a: (i64, i64), b: (i64, i64), w: i64) -> (r: i64)
    requires
        -TABLE_NATIVE_LIMIT <= a.0 <= TABLE_NATIVE_LIMIT,
        -TABLE_NATIVE_LIMIT <= b.0 <= TABLE_NATIVE_LIMIT,
        0 <= a.1 <= TABLE_WEIGHT_LIMIT,
        0 <= b.1 <= TABLE_WEIGHT_LIMIT,
        b.0 - a.0 <= b.1 - a.1,
        a.0 < w < b.0,
    ensures
        r as int == segment_value(a.0, a.1, b.0, b.1, w),
        a.1 <= r <= b.1,
{
    let dw = w - a.0;
    let dc = b.1 - a.1;
    let dn = b.0 - a.0;
    proof {
        assert(0 <= dw * dc <= 20_000_000 * 1_000_000) by (nonlinear_arith)
            requires
                0 < dw <= 20_000_000,
                0 <= dc <= 1_000_000,
        ;
        lemma_quotient_bounds(dw as int, dc as int, dn as int);
    }
    a.1 + dw * dc / dn
}

/// Canonical weight of native value `w` under `table`, exactly as
/// [`interp_weight`] describes it.
#[verifier::rlimit(60)]
pub fn interpolate_weight(table: &Vec<(i64, i64)>, tol: i64, w: i64) -> (r: i64)
    requires
        wf_table(table@, tol),
        tol <= TABLE_NATIVE_LIMIT,
    ensures
        r as int == interp_weight(table@, tol, w),
{
    let n = table.len();
    if w <= table[0].0 {
        return table[0].1;
    }
    if w > table[n - 1].0 && !roughly_eq(w, table[n - 1].0, tol) {
        proof {
            assert forall|j: int| 0 <= j < n implies w > (#[trigger] table@[j]).0 + tol by {
                lemma_table_ordered(table@, tol, j, n - 1);
            }
            lemma_scan_prefix(table@, tol, w, n as int);
        }
        return table[n - 1].1;
    }
    let mut i: usize = 0;
    while i < n
        invariant
            wf_table(table@, tol),
            0 <= tol <= TABLE_NATIVE_LIMIT,
            n == table@.len(),
            0 <= i <= n,
            w > table@[0].0,
            w <= table@[n - 1].0 + tol,
            forall|j: int| 0 <= j < i ==> w > (#[trigger] table@[j]).0 + tol,
        decreases n - i,
    {
        if roughly_eq(w, table[i].0, tol) {
            proof {
                lemma_scan_prefix(table@, tol, w, i as int);
            }
            return table[i].1;
        }
        if w < table[i].0 {
            let a = table[i - 1];
            let b = table[i];
            proof {
                lemma_scan_prefix(table@, tol, w, i as int);
                assert(a == table@[i - 1]);
                assert(b == table@[i as int]);
                assert(a.0 + 2 * tol < b.0);
                assert(b.0 - a.0 <= b.1 - a.1);
                assert(a.0 < w < b.0);
            }
            return segment_interpolate(a, b, w);
        }
        i = i + 1;
    }
    proof {
        assert(w > table@[n - 1].0 + tol);
        assert(false);
    }
    0
}

/// Below or at the first reference point the converter returns the table's
/// floor weight, never an extrapolation.
pub proof fn lemma_weight_floor(table: Seq<(i64, i64)>, tol: i64, w: i64)
    requires
        wf_table(table, tol),
        w <= table[0].0,
    ensures
        interp_weight(table, tol, w) == table[0].1,
{
}

/// Beyond the last reference point (and out of its tolerance) the converter
/// returns the table's ceiling weight; it saturates instead of extrapolating.
pub proof fn lemma_weight_ceiling(table: Seq<(i64, i64)>, tol: i64, w: i64)
    requires
        wf_table(table, tol),
        w > table[table.len() - 1].0 + tol,
    ensures
        interp_weight(table, tol, w) == table[table.len() - 1].1,
{
    let n = table.len() as int;
    assert forall|j: int| 0 <= j < n implies w > (#[trigger] table[j]).0 + tol by {
        lemma_table_ordered(table, tol, j, n - 1);
    }
    lemma_scan_prefix(table, tol, w, n);
}

/// At a reference point (within the platform tolerance) the converter returns
/// exactly that point's canonical weight, with no interpolation drift.
pub proof fn lemma_weight_at_reference(table: Seq<(i64, i64)>, tol: i64, w: i64, i: int)
    requires
        wf_table(table, tol),
        0 <= i < table.len(),
        close_to(w, table[i].0, tol),
    ensures
        interp_weight(table, tol, w) == table[i].1,
{
    if w <= table[0].0 {
        if i > 0 {
            lemma_table_ordered(table, tol, 0, i);
            assert(false);
        }
    } else {
        assert forall|j: int| 0 <= j < i implies w > (#[trigger] table[j]).0 + tol by {
            lemma_table_ordered(table, tol, j, i);
        }
        lemma_scan_prefix(table, tol, w, i);
    }
}

/// Every input whose scan ends in the segment after point `i` — above the
/// point's tolerance band, at most tolerance past the next point — yields a
/// weight above point `i`'s and at most the next point's.
proof fn lemma_weight_in_zone(table: Seq<(i64, i64)>, tol: i64, w: i64, i: int)
    requires
        wf_table(table, tol),
        0 <= i < table.len() - 1,
        table[i].0 + tol < w <= table[i + 1].0 + tol,
    ensures
        table[i].1 < interp_weight(table, tol, w) <= table[i + 1].1,
{
    lemma_table_ordered(table, tol, 0, i);
    assert forall|j: int| 0 <= j <= i implies w > (#[trigger] table[j]).0 + tol by {
        lemma_table_ordered(table, tol, j, i);
    }
    lemma_scan_prefix(table, tol, w, i + 1);
    if close_to(w, table[i + 1].0, tol) {
    } else if w < table[i + 1].0 {
        let x = w - table[i].0;
        let y = table[i + 1].1 - table[i].1;
        let d = table[i + 1].0 - table[i].0;
        lemma_quotient_bounds(x, y, d);
    } else {
        assert(false);
    }
}

/// The index of the segment in which the scan of `w` ends.
proof fn find_zone(table: Seq<(i64, i64)>, tol: i64, w: i64, lo: int) -> (i: int)
    requires
        wf_table(table, tol),
        0 <= lo < table.len() - 1,
        table[lo].0 + tol < w <= table[table.len() - 1].0 + tol,
    ensures
        lo <= i < table.len() - 1,
        table[i].0 + tol < w <= table[i + 1].0 + tol,
    decreases table.len() - lo,
{
    if w <= table[lo + 1].0 + tol {
        lo
    } else {
        find_zone(table, tol, w, lo + 1)
    }
}

/// The converter never leaves the table's canonical range: every input maps
/// to a weight between the floor and the ceiling.
pub proof fn lemma_weight_bounds(table: Seq<(i64, i64)>, tol: i64, w: i64)
    requires
        wf_table(table, tol),
    ensures
        table[0].1 <= interp_weight(table, tol, w) <= table[table.len() - 1].1,
{
    let n = table.len() as int;
    lemma_table_ordered(table, tol, 0, n - 1);
    if w <= table[0].0 {
    } else if w <= table[0].0 + tol {
        lemma_weight_at_reference(table, tol, w, 0);
    } else if w > table[n - 1].0 + tol {
        lemma_weight_ceiling(table, tol, w);
    } else {
        let i = find_zone(table, tol, w, 0);
        lemma_weight_in_zone(table, tol, w, i);
        lemma_table_ordered(table, tol, 0, i);
        lemma_table_ordered(table, tol, i + 1, n - 1);
    }
}

/// Conversion is monotonic: a heavier native weight never maps to a lighter
/// canonical weight.
pub proof fn lemma_weight_monotone(table: Seq<(i64, i64)>, tol: i64, w1: i64, w2: i64)
    requires
        wf_table(table, tol),
        w1 <= w2,
    ensures
        interp_weight(table, tol, w1) <= interp_weight(table, tol, w2),
{
    let n = table.len() as int;
    lemma_weight_bounds(table, tol, w1);
    lemma_weight_bounds(table, tol, w2);
    if w1 <= table[0].0 + tol {
        // The lighter input sits at the floor, below or at the first point's
        // tolerance band; the global lower bound on the heavier input closes
        // the case.
        if w1 <= table[0].0 {
        } else {
            lemma_weight_at_reference(table, tol, w1, 0);
        }
    } else if w2 > table[n - 1].0 + tol {
        // The heavier input saturates to the ceiling; the global upper bound
        // on the lighter input closes the case.
        lemma_weight_ceiling(table, tol, w2);
    } else {
        let i1 = find_zone(table, tol, w1, 0);
        let i2 = find_zone(table, tol, w2, 0);
        lemma_weight_in_zone(table, tol, w1, i1);
        lemma_weight_in_zone(table, tol, w2, i2);
        if i1 == i2 {
            lemma_weight_monotone_in_zone(table, tol, w1, w2, i1);
        } else if i1 < i2 {
            // The zones are ordered, so the zone bounds already order the
            // results: at most the end of the lower zone, above the start of
            // the higher one.
            lemma_table_ordered(table, tol, i1 + 1, i2);
        } else {
            // Zones cannot be out of order: the lower input's zone starts
            // below the higher input.
            lemma_table_ordered(table, tol, i2 + 1, i1);
            assert(false);
        }
    }
}

/// Monotonicity inside one segment: once both inputs scan into the same
/// segment, the interpolated weights are ordered as the inputs are.
proof fn lemma_weight_monotone_in_zone(table: Seq<(i64, i64)>, tol: i64, w1: i64, w2: i64, i: int)
    requires
        wf_table(table, tol),
        0 <= i < table.len() - 1,
        table[i].0 + tol < w1 <= w2 <= table[i + 1].0 + tol,
    ensures
        interp_weight(table, tol, w1) <= interp_weight(table, tol, w2),
{
    lemma_weight_in_zone(table, tol, w1, i);
    lemma_weight_in_zone(table, tol, w2, i);
    if close_to(w2, table[i + 1].0, tol) {
        // The heavier input snaps to the segment's top weight, which the zone
        // bound gives as an upper bound of the lighter input's weight.
        lemma_weight_at_reference(table, tol, w2, i + 1);
    } else {
        // Neither input snaps: both interpolate in this segment, and the
        // quotients are ordered because the numerators are.
        assert(w2 < table[i + 1].0);
        assert(!close_to(w1, table[i + 1].0, tol));
        assert forall|j: int| 0 <= j <= i implies w1 > (#[trigger] table[j]).0 + tol by {
            lemma_table_ordered(table, tol, j, i);
        }
        assert forall|j: int| 0 <= j <= i implies w2 > (#[trigger] table[j]).0 + tol by {
            lemma_table_ordered(table, tol, j, i);
        }
        lemma_scan_prefix(table, tol, w1, i + 1);
        lemma_scan_prefix(table, tol, w2, i + 1);
        let a = table[i];
        let b = table[i + 1];
        let y = b.1 - a.1;
        let d = b.0 - a.0;
        assert((w1 - a.0) * y <= (w2 - a.0) * y) by (nonlinear_arith)
            requires
                w1 <= w2,
                0 <= y,
        ;
        vstd::arithmetic::div_mod::lemma_div_is_ordered(
            (w1 - a.0) * y,
            (w2 - a.0) * y,
            d as int,
        );
    }
}

/// Strictly between two adjacent reference points (and out of both points'
/// tolerances) the converter returns a weight strictly between the two
/// points' canonical weights: interpolation neither collapses onto an
/// endpoint nor overshoots.
pub proof fn lemma_weight_between(table: Seq<(i64, i64)>, tol: i64, w: i64, i: int)
    requires
        wf_table(table, tol),
        0 <= i < table.len() - 1,
        table[i].0 + tol < w,
        w < table[i + 1].0 - tol,
    ensures
        table[i].1 < interp_weight(table, tol, w) < table[i + 1].1,
{
    lemma_table_ordered(table, tol, 0, i);
    assert(w > table[0].0);
    assert forall|j: int| 0 <= j <= i implies w > (#[trigger] table[j]).0 + tol by {
        lemma_table_ordered(table, tol, j, i);
    }
    lemma_scan_prefix(table, tol, w, i + 1);
    assert(!close_to(w, table[i + 1].0, tol));
    assert(interp_weight(table, tol, w) == segment_value(
        table[i].0,
        table[i].1,
        table[i + 1].0,
        table[i + 1].1,
        w,
    ));
    let x = w - table[i].0;
    let y = table[i + 1].1 - table[i].1;
    let d = table[i + 1].0 - table[i].0;
    lemma_quotient_bounds(x, y, d);
    assert(y >= d);
    assert(x < d);
    assert(1 <= x * y / d <= y - 1);
}

} // verus!
