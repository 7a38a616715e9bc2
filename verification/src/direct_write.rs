//! Conversion of DirectWrite's native font attributes onto the canonical
//! scale.
//!
//! DirectWrite reports style, weight and stretch as enumerations. The input
//! types below hold exactly the values the platform's API distinguishes; the
//! backend adapter translates the API's own types into them one for one, and
//! the functions here map them onto the canonical scale.

use crate::{font_views, Font, FontView, Stretch, Style, Weight};
use crate::{
    STRETCH_CONDENSED, STRETCH_EXPANDED, STRETCH_EXTRA_CONDENSED, STRETCH_EXTRA_EXPANDED,
    STRETCH_NORMAL, STRETCH_SEMI_CONDENSED, STRETCH_SEMI_EXPANDED, STRETCH_ULTRA_CONDENSED,
    STRETCH_ULTRA_EXPANDED, WEIGHT_BLACK, WEIGHT_BOLD, WEIGHT_EXTRA_BLACK, WEIGHT_EXTRA_BOLD,
    WEIGHT_EXTRA_LIGHT, WEIGHT_LIGHT, WEIGHT_MEDIUM, WEIGHT_NORMAL, WEIGHT_SEMI_BOLD,
    WEIGHT_SEMI_LIGHT, WEIGHT_THIN,
};
use vstd::prelude::*;

verus! {

/// A native DirectWrite font style.
#[derive(Debug, Clone, Copy, PartialEq, Eq, Structural)]
pub enum DWriteStyle {
    Normal,
    Italic,
    Oblique,
}

/// A native DirectWrite font weight: the named weight classes, or the raw
/// class number when the platform reports one outside the named set.
#[derive(Debug, Clone, Copy, PartialEq, Eq, Structural)]
pub enum DWriteWeight {
    Thin,
    ExtraLight,
    Light,
    SemiLight,
    Regular,
    Medium,
    SemiBold,
    Bold,
    ExtraBold,
    Black,
    ExtraBlack,
    Unknown(u32),
}

/// A native DirectWrite font stretch.
#[derive(Debug, Clone, Copy, PartialEq, Eq, Structural)]
pub enum DWriteStretch {
    UltraCondensed,
    ExtraCondensed,
    Condensed,
    SemiCondensed,
    Normal,
    SemiExpanded,
    Expanded,
    ExtraExpanded,
    UltraExpanded,
    Undefined,
}

/// Style of a native DirectWrite style; DirectWrite never reports an oblique
/// angle.
pub open spec fn dw_style(style: DWriteStyle) -> Style {
    match style {
        DWriteStyle::Normal => Style::Normal,
        DWriteStyle::Italic => Style::Italic,
        DWriteStyle::Oblique => Style::Oblique(None),
    }
}

/// Canonical weight (in thousandths) of a native DirectWrite weight: the
/// named classes map to their canonical constants, and an unknown class
/// number is already a CSS weight value.
pub open spec fn dw_weight_value(weight: DWriteWeight) -> int {
    match weight {
        DWriteWeight::Thin => WEIGHT_THIN as int,
        DWriteWeight::ExtraLight => WEIGHT_EXTRA_LIGHT as int,
        DWriteWeight::Light => WEIGHT_LIGHT as int,
        DWriteWeight::SemiLight => WEIGHT_SEMI_LIGHT as int,
        DWriteWeight::Regular => WEIGHT_NORMAL as int,
        DWriteWeight::Medium => WEIGHT_MEDIUM as int,
        DWriteWeight::SemiBold => WEIGHT_SEMI_BOLD as int,
        DWriteWeight::Bold => WEIGHT_BOLD as int,
        DWriteWeight::ExtraBold => WEIGHT_EXTRA_BOLD as int,
        DWriteWeight::Black => WEIGHT_BLACK as int,
        DWriteWeight::ExtraBlack => WEIGHT_EXTRA_BLACK as int,
        DWriteWeight::Unknown(val) => val * 1000,
    }
}

/// Stretch factor (in thousandths) of a native DirectWrite stretch; an
/// undefined stretch counts as normal.
pub open spec fn dw_stretch_value(stretch: DWriteStretch) -> int {
    match stretch {
        DWriteStretch::UltraCondensed => STRETCH_ULTRA_CONDENSED as int,
        DWriteStretch::ExtraCondensed => STRETCH_EXTRA_CONDENSED as int,
        DWriteStretch::Condensed => STRETCH_CONDENSED as int,
        DWriteStretch::SemiCondensed => STRETCH_SEMI_CONDENSED as int,
        DWriteStretch::Normal => STRETCH_NORMAL as int,
        DWriteStretch::SemiExpanded => STRETCH_SEMI_EXPANDED as int,
        DWriteStretch::Expanded => STRETCH_EXPANDED as int,
        DWriteStretch::ExtraExpanded => STRETCH_EXTRA_EXPANDED as int,
        DWriteStretch::UltraExpanded => STRETCH_ULTRA_EXPANDED as int,
        DWriteStretch::Undefined => STRETCH_NORMAL as int,
    }
}

impl Style {
    /// Convert a native DirectWrite style.
    pub fn from_direct_write(style: DWriteStyle) -> (r: Style)
        ensures
            r == dw_style(style),
    {
        match style {
            DWriteStyle::Normal => Style::Normal,
            DWriteStyle::Italic => Style::Italic,
            DWriteStyle::Oblique => Style::Oblique(None),
        }
    }
}

impl Weight {
    /// Convert a native DirectWrite weight.
    pub fn from_direct_write(weight: DWriteWeight) -> (r: Weight)
        ensures
            r.value as int == dw_weight_value(weight),
    {
        match weight {
            DWriteWeight::Thin => Weight::new(WEIGHT_THIN),
            DWriteWeight::ExtraLight => Weight::new(WEIGHT_EXTRA_LIGHT),
            DWriteWeight::Light => Weight::new(WEIGHT_LIGHT),
            DWriteWeight::SemiLight => Weight::new(WEIGHT_SEMI_LIGHT),
            DWriteWeight::Regular => Weight::new(WEIGHT_NORMAL),
            DWriteWeight::Medium => Weight::new(WEIGHT_MEDIUM),
            DWriteWeight::SemiBold => Weight::new(WEIGHT_SEMI_BOLD),
            DWriteWeight::Bold => Weight::new(WEIGHT_BOLD),
            DWriteWeight::ExtraBold => Weight::new(WEIGHT_EXTRA_BOLD),
            DWriteWeight::Black => Weight::new(WEIGHT_BLACK),
            DWriteWeight::ExtraBlack => Weight::new(WEIGHT_EXTRA_BLACK),
            DWriteWeight::Unknown(val) => Weight::new((val as i64) * 1000),
        }
    }
}

impl Stretch {
    /// Convert a native DirectWrite stretch.
    pub fn from_direct_write(stretch: DWriteStretch) -> (r: Stretch)
        ensures
            r.value as int == dw_stretch_value(stretch),
    {
        match stretch {
            DWriteStretch::UltraCondensed => Stretch::new(STRETCH_ULTRA_CONDENSED),
            DWriteStretch::ExtraCondensed => Stretch::new(STRETCH_EXTRA_CONDENSED),
            DWriteStretch::Condensed => Stretch::new(STRETCH_CONDENSED),
            DWriteStretch::SemiCondensed => Stretch::new(STRETCH_SEMI_CONDENSED),
            DWriteStretch::Normal => Stretch::new(STRETCH_NORMAL),
            DWriteStretch::SemiExpanded => Stretch::new(STRETCH_SEMI_EXPANDED),
            DWriteStretch::Expanded => Stretch::new(STRETCH_EXPANDED),
            DWriteStretch::ExtraExpanded => Stretch::new(STRETCH_EXTRA_EXPANDED),
            DWriteStretch::UltraExpanded => Stretch::new(STRETCH_ULTRA_EXPANDED),
            DWriteStretch::Undefined => Stretch::new(STRETCH_NORMAL),
        }
    }
}

/// One raw font face as the DirectWrite backend reports it.
pub struct DwDescriptor {
    pub family_name: String,
    pub font_name: String,
    pub path: String,
    pub style: DWriteStyle,
    pub weight: DWriteWeight,
    pub stretch: DWriteStretch,
}

/// The record a descriptor converts to.
pub open spec fn dw_font_view(d: DwDescriptor) -> FontView {
    FontView {
        family_name: d.family_name@,
        font_name: d.font_name@,
        path: d.path@,
        style: dw_style(d.style),
        weight: Weight { value: dw_weight_value(d.weight) as i64 },
        stretch: Stretch { value: dw_stretch_value(d.stretch) as i64 },
    }
}

/// The records of a descriptor sequence, in order; DirectWrite descriptors
/// always carry a file path, so none is dropped.
pub open spec fn dw_fonts_of(ds: Seq<DwDescriptor>) -> Seq<FontView>
    decreases ds.len(),
{
    if ds.len() == 0 {
        Seq::empty()
    } else {
        dw_fonts_of(ds.drop_last()).push(dw_font_view(ds.last()))
    }
}

/// Convert every font face the DirectWrite backend produced, in enumeration
/// order.
pub fn fonts_from_descriptors(descs: &Vec<DwDescriptor>) -> (r: Vec<Font>)
    ensures
        font_views(r@) == dw_fonts_of(descs@),
{
    let mut out: Vec<Font> = Vec::new();
    let mut i: usize = 0;
    while i < descs.len()
        invariant
            0 <= i <= descs@.len(),
            font_views(out@) == dw_fonts_of(descs@.take(i as int)),
        decreases descs@.len() - i,
    {
        let d = &descs[i];
        let font = Font {
            family_name: d.family_name.clone(),
            font_name: d.font_name.clone(),
            path: d.path.clone(),
            style: Style::from_direct_write(d.style),
            weight: Weight::from_direct_write(d.weight),
            stretch: Stretch::from_direct_write(d.stretch),
        };
        proof {
            assert(font@ == dw_font_view(descs@[i as int]));
        }
        out.push(font);
        proof {
            assert(descs@.take(i + 1).drop_last() =~= descs@.take(i as int));
            assert(font_views(out@) =~= dw_fonts_of(descs@.take(i + 1)));
        }
        i = i + 1;
    }
    proof {
        assert(descs@.take(i as int) =~= descs@);
    }
    out
}

} // verus!
