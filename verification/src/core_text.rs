//! Conversion of Core Text's native font traits onto the canonical scale.
//!
//! Core Text reports weight, width and slant as normalized fractions in the
//! range -1 to 1. This module stores them as integers in hundred-thousandths,
//! so a native trait of -0.8 arrives as `-80_000`. The weight scale is
//! non-linear, with named reference points at the native values below; inputs
//! within a tolerance of one hundred-thousandth of a point snap to it, which
//! absorbs rounding noise in the platform's fractions. Widths and slants
//! rescale linearly, the width onto the canonical 0.5..2.0 stretch range and
//! the slant onto -12..12 degrees; the converters are total, saturating
//! inputs beyond the documented native range.

use crate::interpolate::{interp_weight, interpolate_weight, wf_table};
use crate::{font_views, Font, FontView, Stretch, Style, Weight};
use crate::{
    STRETCH_NORMAL, STRETCH_ULTRA_CONDENSED, STRETCH_ULTRA_EXPANDED, WEIGHT_BLACK, WEIGHT_BOLD,
    WEIGHT_EXTRA_BOLD, WEIGHT_LIGHT, WEIGHT_MEDIUM, WEIGHT_NORMAL, WEIGHT_SEMI_BOLD, WEIGHT_THIN,
};
use vstd::arithmetic::div_mod::{lemma_div_is_ordered, lemma_div_pos_is_pos};
use vstd::prelude::*;

verus! {

/// Core Text's native weight for the ultra-light reference point, in
/// hundred-thousandths.
pub const CT_ULTRA_LIGHT: i64 = -80_000;

/// Core Text's native weight for the thin reference point.
pub const CT_THIN: i64 = -60_000;

/// Core Text's native weight for the light reference point.
pub const CT_LIGHT: i64 = -40_000;

/// Core Text's native weight for the regular reference point.
pub const CT_REGULAR: i64 = 0;

/// Core Text's native weight for the medium reference point.
pub const CT_MEDIUM: i64 = 23_000;

/// Core Text's native weight for the semi-bold reference point.
pub const CT_SEMI_BOLD: i64 = 30_000;

/// Core Text's native weight for the bold reference point.
pub const CT_BOLD: i64 = 40_000;

/// Core Text's native weight for the heavy reference point.
pub const CT_HEAVY: i64 = 56_000;

/// Core Text's native weight for the black reference point.
pub const CT_BLACK: i64 = 62_000;

/// Canonical weight (in thousandths) of Core Text's ultra-light reference
/// point: a CSS value of 50, below the named thin constant, keeping headroom
/// under the canonical scale's own floor.
pub const CT_FLOOR_WEIGHT: i64 = 50_000;

/// Snapping tolerance: one hundred-thousandth of the normalized scale.
pub const CT_TOLERANCE: i64 = 1;

/// Largest magnitude of a normalized Core Text trait, in hundred-thousandths:
/// the platform documents the range -1 to 1.
pub const CT_TRAIT_LIMIT: i64 = 100_000;

/// The reference points of Core Text's weight scale, native value first,
/// canonical weight (in thousandths) second. The scale tops out at the black
/// reference point: heavier inputs saturate to the canonical black weight,
/// not to the canonical scale's own maximum.
pub open spec fn ct_weight_table() -> Seq<(i64, i64)> {
    seq![
        (CT_ULTRA_LIGHT, CT_FLOOR_WEIGHT),
        (CT_THIN, WEIGHT_THIN),
        (CT_LIGHT, WEIGHT_LIGHT),
        (CT_REGULAR, WEIGHT_NORMAL),
        (CT_MEDIUM, WEIGHT_MEDIUM),
        (CT_SEMI_BOLD, WEIGHT_SEMI_BOLD),
        (CT_BOLD, WEIGHT_BOLD),
        (CT_HEAVY, WEIGHT_EXTRA_BOLD),
        (CT_BLACK, WEIGHT_BLACK),
    ]
}

/// The Core Text table is usable with the snapping tolerance.
pub proof fn ct_weight_table_wf()
    ensures
        wf_table(ct_weight_table(), CT_TOLERANCE),
{
    let t = ct_weight_table();
    assert(t.len() == 9);
    assert(t[0] == (-80_000i64, 50_000i64));
    assert(t[1] == (-60_000i64, 100_000i64));
    assert(t[2] == (-40_000i64, 300_000i64));
    assert(t[3] == (0i64, 400_000i64));
    assert(t[4] == (23_000i64, 500_000i64));
    assert(t[5] == (30_000i64, 600_000i64));
    assert(t[6] == (40_000i64, 700_000i64));
    assert(t[7] == (56_000i64, 800_000i64));
    assert(t[8] == (62_000i64, 900_000i64));
}

/// Canonical weight (in thousandths) of a native Core Text weight given in
/// hundred-thousandths.
pub open spec fn ct_weight_value(weight: i64) -> int {
    interp_weight(ct_weight_table(), CT_TOLERANCE, weight)
}

/// A native trait clamped into the platform's documented -1..1 range, in
/// hundred-thousandths: values beyond the range saturate to its ends.
pub open spec fn ct_clamp(value: i64) -> i64 {
    if value < -CT_TRAIT_LIMIT {
        (-CT_TRAIT_LIMIT) as i64
    } else if value > CT_TRAIT_LIMIT {
        CT_TRAIT_LIMIT
    } else {
        value
    }
}

/// Oblique angle in thousandths of a degree of a native Core Text slant given
/// in hundred-thousandths: the native -1..1 range rescales to -12..12
/// degrees, rounded toward zero; slants beyond the native range saturate to
/// those extremes.
pub open spec fn ct_oblique_angle(slant: i64) -> int {
    let s = ct_clamp(slant);
    if s >= 0 {
        s * 12 / 100
    } else {
        -((-s) * 12 / 100)
    }
}

/// Style of a native Core Text trait triple: vertical fonts count as upright
/// whatever their slant, an italic flag wins next, and anything else is an
/// oblique face with the rescaled angle.
pub open spec fn ct_style(vertical: bool, italic: bool, slant: i64) -> Style {
    if vertical {
        Style::Normal
    } else if italic {
        Style::Italic
    } else {
        Style::Oblique(Some(ct_oblique_angle(slant) as i64))
    }
}

/// Stretch factor (in thousandths) of a native Core Text width given in
/// hundred-thousandths: the normalized -1..1 range rescales piecewise
/// linearly onto the canonical 0.5..2.0 range, the condensed half onto
/// 0.5..1.0 and the expanded half onto 1.0..2.0, so the normal width 0 maps
/// to exactly 1.0. Fractions are rounded toward the normal width, and widths
/// beyond the native range saturate to the canonical extremes.
pub open spec fn ct_stretch_value(width: i64) -> int {
    let w = ct_clamp(width) as int;
    if w >= 0 {
        STRETCH_NORMAL + w * (STRETCH_ULTRA_EXPANDED - STRETCH_NORMAL) / (CT_TRAIT_LIMIT as int)
    } else {
        STRETCH_NORMAL - (-w) * (STRETCH_NORMAL - STRETCH_ULTRA_CONDENSED) / (CT_TRAIT_LIMIT
            as int)
    }
}

impl Weight {
    /// Convert a native Core Text weight given in hundred-thousandths of the
    /// normalized scale. Inputs at or below the ultra-light reference point
    /// give the floor weight of 50; inputs beyond the black reference point
    /// saturate to the canonical black weight.
    pub fn from_core_text(weight: i64) -> (r: Weight)
        ensures
            r.value as int == ct_weight_value(weight),
    {
        let mut table: Vec<(i64, i64)> = Vec::new();
        table.push((CT_ULTRA_LIGHT, CT_FLOOR_WEIGHT));
        table.push((CT_THIN, WEIGHT_THIN));
        table.push((CT_LIGHT, WEIGHT_LIGHT));
        table.push((CT_REGULAR, WEIGHT_NORMAL));
        table.push((CT_MEDIUM, WEIGHT_MEDIUM));
        table.push((CT_SEMI_BOLD, WEIGHT_SEMI_BOLD));
        table.push((CT_BOLD, WEIGHT_BOLD));
        table.push((CT_HEAVY, WEIGHT_EXTRA_BOLD));
        table.push((CT_BLACK, WEIGHT_BLACK));
        proof {
            assert(table@ =~= ct_weight_table());
            ct_weight_table_wf();
        }
        Weight::new(interpolate_weight(&table, CT_TOLERANCE, weight))
    }
}

/// The value clamped into the platform's documented -1..1 trait range.
fn clamp_trait(value: i64) -> (r: i64)
    ensures
        r == ct_clamp(value),
{
    if value < -CT_TRAIT_LIMIT {
        -CT_TRAIT_LIMIT
    } else if value > CT_TRAIT_LIMIT {
        CT_TRAIT_LIMIT
    } else {
        value
    }
}

impl Style {
    /// Convert a native Core Text trait triple; the slant is given in
    /// hundred-thousandths of the normalized scale.
    pub fn from_core_text(vertical: bool, italic: bool, slant: i64) -> (r: Style)
        ensures
            r == ct_style(vertical, italic, slant),
    {
        if vertical {
            Style::Normal
        } else if italic {
            Style::Italic
        } else {
            let s = clamp_trait(slant);
            if s >= 0 {
                Style::Oblique(Some(s * 12 / 100))
            } else {
                Style::Oblique(Some(-((-s) * 12 / 100)))
            }
        }
    }
}

impl Stretch {
    /// Convert a native Core Text width given in hundred-thousandths of the
    /// normalized scale; the result always lies in the canonical range, from
    /// ultra-condensed to ultra-expanded.
    pub fn from_core_text(width: i64) -> (r: Stretch)
        ensures
            r.value as int == ct_stretch_value(width),
            STRETCH_ULTRA_CONDENSED <= r.value <= STRETCH_ULTRA_EXPANDED,
    {
        let w = clamp_trait(width);
        if w >= 0 {
            let q = w * (STRETCH_ULTRA_EXPANDED - STRETCH_NORMAL) / CT_TRAIT_LIMIT;
            proof {
                lemma_div_pos_is_pos(w * 1000, 100_000);
                lemma_div_is_ordered(w * 1000, 100_000_000, 100_000);
            }
            Stretch::new(STRETCH_NORMAL + q)
        } else {
            let q = (-w) * (STRETCH_NORMAL - STRETCH_ULTRA_CONDENSED) / CT_TRAIT_LIMIT;
            proof {
                lemma_div_pos_is_pos((-w) * 500, 100_000);
                lemma_div_is_ordered((-w) * 500, 50_000_000, 100_000);
            }
            Stretch::new(STRETCH_NORMAL - q)
        }
    }
}

/// One raw font descriptor as the Core Text backend reports it. The three
/// trait values are normalized fractions in hundred-thousandths; the path is
/// `None` when the platform reports no file for the face.
pub struct CtDescriptor {
    pub family_name: String,
    pub font_name: String,
    pub path: Option<String>,
    pub vertical: bool,
    pub italic: bool,
    pub slant: i64,
    pub weight: i64,
    pub width: i64,
}

/// A descriptor yields a record only when the platform reports a file for it.
pub open spec fn ct_kept(d: CtDescriptor) -> bool {
    d.path is Some
}

/// The record a kept descriptor converts to.
pub open spec fn ct_font_view(d: CtDescriptor) -> FontView {
    FontView {
        family_name: d.family_name@,
        font_name: d.font_name@,
        path: match d.path {
            Some(s) => s@,
            None => Seq::empty(),
        },
        style: ct_style(d.vertical, d.italic, d.slant),
        weight: Weight { value: ct_weight_value(d.weight) as i64 },
        stretch: Stretch { value: ct_stretch_value(d.width) as i64 },
    }
}

/// The records of a descriptor sequence, in order, dropping descriptors
/// without a file.
pub open spec fn ct_fonts_of(ds: Seq<CtDescriptor>) -> Seq<FontView>
    decreases ds.len(),
{
    if ds.len() == 0 {
        Seq::empty()
    } else {
        let rest = ct_fonts_of(ds.drop_last());
        if ct_kept(ds.last()) {
            rest.push(ct_font_view(ds.last()))
        } else {
            rest
        }
    }
}

/// Convert every descriptor the Core Text backend produced, in enumeration
/// order, skipping faces without a file.
pub fn fonts_from_descriptors(descs: &Vec<CtDescriptor>) -> (r: Vec<Font>)
    ensures
        font_views(r@) == ct_fonts_of(descs@),
{
    let mut out: Vec<Font> = Vec::new();
    let mut i: usize = 0;
    while i < descs.len()
        invariant
            0 <= i <= descs@.len(),
            font_views(out@) == ct_fonts_of(descs@.take(i as int)),
        decreases descs@.len() - i,
    {
        let d = &descs[i];
        match &d.path {
            Some(path) => {
                let font = Font {
                    family_name: d.family_name.clone(),
                    font_name: d.font_name.clone(),
                    path: path.clone(),
                    style: Style::from_core_text(d.vertical, d.italic, d.slant),
                    weight: Weight::from_core_text(d.weight),
                    stretch: Stretch::from_core_text(d.width),
                };
                proof {
                    assert(font@ == ct_font_view(descs@[i as int]));
                }
                out.push(font);
            },
            None => {},
        }
        proof {
            assert(descs@.take(i + 1).drop_last() =~= descs@.take(i as int));
            assert(descs@.take(i + 1).last() == descs@[i as int]);
            assert(font_views(out@) =~= ct_fonts_of(descs@.take(i + 1)));
        }
        i = i + 1;
    }
    proof {
        assert(descs@.take(i as int) =~= descs@);
    }
    out
}

} // verus!
