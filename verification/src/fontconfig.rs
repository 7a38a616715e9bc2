//! Conversion of Fontconfig's native font attributes onto the canonical scale.
//!
//! Fontconfig reports slant, weight and width as small integers. The weight
//! scale is non-linear: named reference points sit at uneven native values, so
//! conversion interpolates between adjacent points. The native values of the
//! reference points below mirror Fontconfig's own constants.

use crate::interpolate::{interp_weight, interpolate_weight, wf_table};
use crate::{font_views, Font, FontView, Stretch, Style, Weight};
use crate::{
    STRETCH_EXTRA_CONDENSED, STRETCH_SEMI_CONDENSED, STRETCH_SEMI_EXPANDED, WEIGHT_BLACK,
    WEIGHT_BOLD, WEIGHT_EXTRA_BLACK, WEIGHT_EXTRA_BOLD, WEIGHT_EXTRA_LIGHT, WEIGHT_LIGHT,
    WEIGHT_MEDIUM, WEIGHT_NORMAL, WEIGHT_SEMI_BOLD, WEIGHT_SEMI_LIGHT, WEIGHT_THIN,
};
use vstd::prelude::*;

verus! {

/// Fontconfig's native slant value for upright ("roman") faces.
pub const FC_SLANT_ROMAN: i32 = 0;

/// Fontconfig's native slant value for italic faces.
pub const FC_SLANT_ITALIC: i32 = 100;

/// Fontconfig's native slant value for oblique faces.
pub const FC_SLANT_OBLIQUE: i32 = 110;

/// Fontconfig's native weight value for the thin reference point.
pub const FC_WEIGHT_THIN: i32 = 0;

/// Fontconfig's native weight value for the extra-light reference point.
pub const FC_WEIGHT_EXTRALIGHT: i32 = 40;

/// Fontconfig's native weight value for the light reference point.
pub const FC_WEIGHT_LIGHT: i32 = 50;

/// Fontconfig's native weight value for the book reference point.
pub const FC_WEIGHT_BOOK: i32 = 75;

/// Fontconfig's native weight value for the regular reference point.
pub const FC_WEIGHT_REGULAR: i32 = 80;

/// Fontconfig's native weight value for the medium reference point.
pub const FC_WEIGHT_MEDIUM: i32 = 100;

/// Fontconfig's native weight value for the demi-bold reference point.
pub const FC_WEIGHT_DEMIBOLD: i32 = 180;

/// Fontconfig's native weight value for the bold reference point.
pub const FC_WEIGHT_BOLD: i32 = 200;

/// Fontconfig's native weight value for the extra-bold reference point.
pub const FC_WEIGHT_EXTRABOLD: i32 = 205;

/// Fontconfig's native weight value for the black reference point.
pub const FC_WEIGHT_BLACK: i32 = 210;

/// Fontconfig's native weight value for the extra-black reference point.
pub const FC_WEIGHT_EXTRABLACK: i32 = 215;

/// Fontconfig's native width value for normal-width faces.
pub const FC_WIDTH_NORMAL: i32 = 100;

/// The reference points of Fontconfig's weight scale, native value first,
/// canonical weight (in thousandths) second.
pub open spec fn fc_weight_table() -> Seq<(i64, i64)> {
    seq![
        (FC_WEIGHT_THIN as i64, WEIGHT_THIN),
        (FC_WEIGHT_EXTRALIGHT as i64, WEIGHT_EXTRA_LIGHT),
        (FC_WEIGHT_LIGHT as i64, WEIGHT_LIGHT),
        (FC_WEIGHT_BOOK as i64, WEIGHT_SEMI_LIGHT),
        (FC_WEIGHT_REGULAR as i64, WEIGHT_NORMAL),
        (FC_WEIGHT_MEDIUM as i64, WEIGHT_MEDIUM),
        (FC_WEIGHT_DEMIBOLD as i64, WEIGHT_SEMI_BOLD),
        (FC_WEIGHT_BOLD as i64, WEIGHT_BOLD),
        (FC_WEIGHT_EXTRABOLD as i64, WEIGHT_EXTRA_BOLD),
        (FC_WEIGHT_BLACK as i64, WEIGHT_BLACK),
        (FC_WEIGHT_EXTRABLACK as i64, WEIGHT_EXTRA_BLACK),
    ]
}

/// Fontconfig weights are integers, so reference points match exactly: the
/// interpolation tolerance is zero.
pub proof fn fc_weight_table_wf()
    ensures
        wf_table(fc_weight_table(), 0),
{
    let t = fc_weight_table();
    assert(t.len() == 11);
    assert(t[0] == (0i64, 100_000i64));
    assert(t[1] == (40i64, 200_000i64));
    assert(t[2] == (50i64, 300_000i64));
    assert(t[3] == (75i64, 350_000i64));
    assert(t[4] == (80i64, 400_000i64));
    assert(t[5] == (100i64, 500_000i64));
    assert(t[6] == (180i64, 600_000i64));
    assert(t[7] == (200i64, 700_000i64));
    assert(t[8] == (205i64, 800_000i64));
    assert(t[9] == (210i64, 900_000i64));
    assert(t[10] == (215i64, 950_000i64));
}

/// Canonical weight (in thousandths) of a native Fontconfig weight.
pub open spec fn fc_weight_value(weight: i32) -> int {
    interp_weight(fc_weight_table(), 0, weight as i64)
}

/// Style of a native Fontconfig slant.
pub open spec fn fc_style(slant: i32) -> Style {
    if slant == FC_SLANT_ITALIC {
        Style::Italic
    } else if slant == FC_SLANT_OBLIQUE {
        Style::Oblique(None)
    } else {
        Style::Normal
    }
}

/// Stretch factor (in thousandths) of a native Fontconfig width. Widths are
/// percentages of the normal design, except that Fontconfig's three rounded
/// percentage constants snap to the named stretch values they stand for.
pub open spec fn fc_stretch_value(width: i32) -> int {
    if width == 63 {
        STRETCH_EXTRA_CONDENSED as int
    } else if width == 87 {
        STRETCH_SEMI_CONDENSED as int
    } else if width == 113 {
        STRETCH_SEMI_EXPANDED as int
    } else {
        width * 10
    }
}

impl Weight {
    /// Convert a native Fontconfig weight. Inputs at or below the thin
    /// reference point give the thin weight; inputs beyond the extra-black
    /// reference point saturate to the extra-black weight.
    pub fn from_fc(weight: i32) -> (r: Weight)
        ensures
            r.value as int == fc_weight_value(weight),
    {
        let mut table: Vec<(i64, i64)> = Vec::new();
        table.push((FC_WEIGHT_THIN as i64, WEIGHT_THIN));
        table.push((FC_WEIGHT_EXTRALIGHT as i64, WEIGHT_EXTRA_LIGHT));
        table.push((FC_WEIGHT_LIGHT as i64, WEIGHT_LIGHT));
        table.push((FC_WEIGHT_BOOK as i64, WEIGHT_SEMI_LIGHT));
        table.push((FC_WEIGHT_REGULAR as i64, WEIGHT_NORMAL));
        table.push((FC_WEIGHT_MEDIUM as i64, WEIGHT_MEDIUM));
        table.push((FC_WEIGHT_DEMIBOLD as i64, WEIGHT_SEMI_BOLD));
        table.push((FC_WEIGHT_BOLD as i64, WEIGHT_BOLD));
        table.push((FC_WEIGHT_EXTRABOLD as i64, WEIGHT_EXTRA_BOLD));
        table.push((FC_WEIGHT_BLACK as i64, WEIGHT_BLACK));
        table.push((FC_WEIGHT_EXTRABLACK as i64, WEIGHT_EXTRA_BLACK));
        proof {
            assert(table@ =~= fc_weight_table());
            fc_weight_table_wf();
        }
        Weight::new(interpolate_weight(&table, 0, weight as i64))
    }
}

impl Style {
    /// Convert a native Fontconfig slant. Unknown slant values fall back to
    /// the upright style.
    pub fn from_fc(slant: i32) -> (r: Style)
        ensures
            r == fc_style(slant),
    {
        if slant == FC_SLANT_ITALIC {
            Style::Italic
        } else if slant == FC_SLANT_OBLIQUE {
            Style::Oblique(None)
        } else {
            Style::Normal
        }
    }
}

impl Stretch {
    /// Convert a native Fontconfig width.
    pub fn from_fc(width: i32) -> (r: Stretch)
        ensures
            r.value as int == fc_stretch_value(width),
    {
        if width == 63 {
            Stretch::new(STRETCH_EXTRA_CONDENSED)
        } else if width == 87 {
            Stretch::new(STRETCH_SEMI_CONDENSED)
        } else if width == 113 {
            Stretch::new(STRETCH_SEMI_EXPANDED)
        } else {
            Stretch::new((width as i64) * 10)
        }
    }
}

/// One raw font descriptor as the Fontconfig backend reports it. Attributes
/// the platform left out are `None`; conversion substitutes Fontconfig's
/// documented defaults for them.
pub struct FcDescriptor {
    pub family_name: Option<String>,
    pub font_name: Option<String>,
    pub path: Option<String>,
    pub slant: Option<i32>,
    pub weight: Option<i32>,
    pub width: Option<i32>,
}

/// The attribute value itself, or the platform default where it is absent.
pub open spec fn or_default(value: Option<i32>, default: i32) -> i32 {
    match value {
        Some(v) => v,
        None => default,
    }
}

/// A descriptor yields a record only when it names both a family and a file.
pub open spec fn fc_kept(d: FcDescriptor) -> bool {
    d.family_name is Some && d.path is Some
}

/// The record a kept descriptor converts to: absent names become empty, and
/// absent attributes take Fontconfig's roman slant, regular weight and normal
/// width before conversion.
pub open spec fn fc_font_view(d: FcDescriptor) -> FontView {
    FontView {
        family_name: match d.family_name {
            Some(s) => s@,
            None => Seq::empty(),
        },
        font_name: match d.font_name {
            Some(s) => s@,
            None => Seq::empty(),
        },
        path: match d.path {
            Some(s) => s@,
            None => Seq::empty(),
        },
        style: fc_style(or_default(d.slant, FC_SLANT_ROMAN)),
        weight: Weight { value: fc_weight_value(or_default(d.weight, FC_WEIGHT_REGULAR)) as i64 },
        stretch: Stretch {
            value: fc_stretch_value(or_default(d.width, FC_WIDTH_NORMAL)) as i64,
        },
    }
}

/// The records of a descriptor sequence, in order, dropping descriptors
/// without a family or a file.
pub open spec fn fc_fonts_of(ds: Seq<FcDescriptor>) -> Seq<FontView>
    decreases ds.len(),
{
    if ds.len() == 0 {
        Seq::empty()
    } else {
        let rest = fc_fonts_of(ds.drop_last());
        if fc_kept(ds.last()) {
            rest.push(fc_font_view(ds.last()))
        } else {
            rest
        }
    }
}

/// Convert every descriptor the Fontconfig backend produced, in enumeration
/// order, skipping those without a family or a file.
pub fn fonts_from_descriptors(descs: &Vec<FcDescriptor>) -> (r: Vec<Font>)
    ensures
        font_views(r@) == fc_fonts_of(descs@),
{
    let mut out: Vec<Font> = Vec::new();
    let mut i: usize = 0;
    while i < descs.len()
        invariant
            0 <= i <= descs@.len(),
            font_views(out@) == fc_fonts_of(descs@.take(i as int)),
        decreases descs@.len() - i,
    {
        let d = &descs[i];
        match (&d.family_name, &d.path) {
            (Some(family), Some(path)) => {
                let font_name = match &d.font_name {
                    Some(n) => n.clone(),
                    None => String::new(),
                };
                let slant = match d.slant {
                    Some(v) => v,
                    None => FC_SLANT_ROMAN,
                };
                let weight = match d.weight {
                    Some(v) => v,
                    None => FC_WEIGHT_REGULAR,
                };
                let width = match d.width {
                    Some(v) => v,
                    None => FC_WIDTH_NORMAL,
                };
                let font = Font {
                    family_name: family.clone(),
                    font_name,
                    path: path.clone(),
                    style: Style::from_fc(slant),
                    weight: Weight::from_fc(weight),
                    stretch: Stretch::from_fc(width),
                };
                proof {
                    assert(font@ == fc_font_view(descs@[i as int]));
                }
                out.push(font);
            },
            _ => {},
        }
        proof {
            assert(descs@.take(i + 1).drop_last() =~= descs@.take(i as int));
            assert(descs@.take(i + 1).last() == descs@[i as int]);
            assert(font_views(out@) =~= fc_fonts_of(descs@.take(i + 1)));
        }
        i = i + 1;
    }
    proof {
        assert(descs@.take(i as int) =~= descs@);
    }
    out
}

} // verus!
