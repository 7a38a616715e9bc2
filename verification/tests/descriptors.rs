use font_enumeration::core_text::{self, CtDescriptor};
use font_enumeration::direct_write::{
    self, DWriteStretch, DWriteStyle, DWriteWeight, DwDescriptor,
};
use font_enumeration::fontconfig::{self, FcDescriptor, FC_SLANT_ITALIC, FC_SLANT_OBLIQUE};
use font_enumeration::output::{HumanReadable, Json, Options, PrintFeatures, PrintWritingSystems};
use font_enumeration::{
    Error, Stretch, Style, Weight, STRETCH_CONDENSED, STRETCH_EXPANDED, STRETCH_EXTRA_CONDENSED,
    STRETCH_EXTRA_EXPANDED, STRETCH_NORMAL, STRETCH_SEMI_CONDENSED, STRETCH_SEMI_EXPANDED,
    STRETCH_ULTRA_CONDENSED, STRETCH_ULTRA_EXPANDED, WEIGHT_BOLD, WEIGHT_NORMAL, WEIGHT_THIN,
};

#[test]
fn fc_style_conversion() {
    assert_eq!(Style::from_fc(FC_SLANT_ITALIC), Style::Italic);
    assert_eq!(Style::from_fc(FC_SLANT_OBLIQUE), Style::Oblique(None));
    assert_eq!(Style::from_fc(0), Style::Normal);
    assert_eq!(Style::from_fc(42), Style::Normal);
}

#[test]
fn fc_stretch_conversion() {
    // Fontconfig widths are percentages; its three rounded constants snap to
    // the named stretch values they stand for.
    assert_eq!(Stretch::from_fc(63).value(), STRETCH_EXTRA_CONDENSED);
    assert_eq!(Stretch::from_fc(87).value(), STRETCH_SEMI_CONDENSED);
    assert_eq!(Stretch::from_fc(113).value(), STRETCH_SEMI_EXPANDED);
    assert_eq!(Stretch::from_fc(50).value(), STRETCH_ULTRA_CONDENSED);
    assert_eq!(Stretch::from_fc(75).value(), STRETCH_CONDENSED);
    assert_eq!(Stretch::from_fc(100).value(), STRETCH_NORMAL);
    assert_eq!(Stretch::from_fc(125).value(), STRETCH_EXPANDED);
    assert_eq!(Stretch::from_fc(150).value(), STRETCH_EXTRA_EXPANDED);
    assert_eq!(Stretch::from_fc(200).value(), STRETCH_ULTRA_EXPANDED);
    assert_eq!(Stretch::from_fc(110).value(), 1_100);
}

#[test]
fn ct_style_conversion() {
    // Vertical fonts count as upright whatever their other traits.
    assert_eq!(Style::from_core_text(true, true, 50_000), Style::Normal);
    assert_eq!(Style::from_core_text(false, true, 50_000), Style::Italic);
    // The full native slant range rescales to 12 degrees, reported in
    // thousandths of a degree.
    assert_eq!(
        Style::from_core_text(false, false, 50_000),
        Style::Oblique(Some(6_000))
    );
    assert_eq!(
        Style::from_core_text(false, false, -25_000),
        Style::Oblique(Some(-3_000))
    );
    assert_eq!(Style::from_core_text(false, false, 0), Style::Oblique(Some(0)));
    // Slants beyond the documented -1..1 native range saturate to its ends.
    assert_eq!(
        Style::from_core_text(false, false, 300_000),
        Style::Oblique(Some(12_000))
    );
    assert_eq!(
        Style::from_core_text(false, false, i64::MIN),
        Style::Oblique(Some(-12_000))
    );
}

#[test]
fn ct_stretch_conversion() {
    // The normalized -1..1 width range rescales onto the canonical 0.5..2.0
    // stretch range, with the normal width in the middle.
    assert_eq!(Stretch::from_core_text(0).value(), STRETCH_NORMAL);
    assert_eq!(Stretch::from_core_text(-100_000).value(), STRETCH_ULTRA_CONDENSED);
    assert_eq!(Stretch::from_core_text(100_000).value(), STRETCH_ULTRA_EXPANDED);
    assert_eq!(Stretch::from_core_text(25_000).value(), 1_250);
    assert_eq!(Stretch::from_core_text(50_000).value(), STRETCH_EXTRA_EXPANDED);
    assert_eq!(Stretch::from_core_text(-50_000).value(), STRETCH_CONDENSED);
    assert_eq!(Stretch::from_core_text(-25_000).value(), STRETCH_SEMI_CONDENSED);
    assert_eq!(Stretch::from_core_text(10_000).value(), 1_100);
    // Widths beyond the documented -1..1 native range saturate to the
    // canonical extremes.
    assert_eq!(Stretch::from_core_text(250_000).value(), STRETCH_ULTRA_EXPANDED);
    assert_eq!(Stretch::from_core_text(i64::MAX).value(), STRETCH_ULTRA_EXPANDED);
    assert_eq!(Stretch::from_core_text(-250_000).value(), STRETCH_ULTRA_CONDENSED);
    assert_eq!(Stretch::from_core_text(i64::MIN).value(), STRETCH_ULTRA_CONDENSED);
}

#[test]
fn dw_conversions() {
    assert_eq!(Style::from_direct_write(DWriteStyle::Normal), Style::Normal);
    assert_eq!(Style::from_direct_write(DWriteStyle::Italic), Style::Italic);
    assert_eq!(
        Style::from_direct_write(DWriteStyle::Oblique),
        Style::Oblique(None)
    );
    assert_eq!(Weight::from_direct_write(DWriteWeight::Thin).value(), WEIGHT_THIN);
    assert_eq!(Weight::from_direct_write(DWriteWeight::Bold).value(), WEIGHT_BOLD);
    assert_eq!(
        Weight::from_direct_write(DWriteWeight::Unknown(450)).value(),
        450_000
    );
    assert_eq!(
        Stretch::from_direct_write(DWriteStretch::UltraCondensed).value(),
        STRETCH_ULTRA_CONDENSED
    );
    assert_eq!(
        Stretch::from_direct_write(DWriteStretch::Undefined).value(),
        STRETCH_NORMAL
    );
    assert_eq!(
        Stretch::from_direct_write(DWriteStretch::UltraExpanded).value(),
        STRETCH_ULTRA_EXPANDED
    );
}

#[test]
fn fc_descriptors_convert_with_defaults() {
    let descs = vec![
        FcDescriptor {
            family_name: Some("DejaVu Sans".to_owned()),
            font_name: Some("DejaVu Sans Book".to_owned()),
            path: Some("/fonts/dejavu.ttf".to_owned()),
            slant: Some(FC_SLANT_ITALIC),
            weight: Some(200),
            width: Some(113),
        },
        // No family: dropped.
        FcDescriptor {
            family_name: None,
            font_name: Some("Nameless".to_owned()),
            path: Some("/fonts/nameless.ttf".to_owned()),
            slant: None,
            weight: None,
            width: None,
        },
        // No attributes: the platform defaults (roman, regular, normal).
        FcDescriptor {
            family_name: Some("Fallback".to_owned()),
            font_name: None,
            path: Some("/fonts/fallback.ttf".to_owned()),
            slant: None,
            weight: None,
            width: None,
        },
    ];
    let fonts = fontconfig::fonts_from_descriptors(&descs);
    assert_eq!(fonts.len(), 2);
    assert_eq!(fonts[0].family_name, "DejaVu Sans");
    assert_eq!(fonts[0].font_name, "DejaVu Sans Book");
    assert_eq!(fonts[0].path, "/fonts/dejavu.ttf");
    assert_eq!(fonts[0].style, Style::Italic);
    assert_eq!(fonts[0].weight, Weight::new(WEIGHT_BOLD));
    assert_eq!(fonts[0].stretch, Stretch::new(STRETCH_SEMI_EXPANDED));
    assert_eq!(fonts[1].family_name, "Fallback");
    assert_eq!(fonts[1].font_name, "");
    assert_eq!(fonts[1].style, Style::Normal);
    assert_eq!(fonts[1].weight, Weight::new(WEIGHT_NORMAL));
    assert_eq!(fonts[1].stretch, Stretch::new(STRETCH_NORMAL));
}

#[test]
fn ct_descriptors_convert_and_skip_pathless() {
    let descs = vec![
        CtDescriptor {
            family_name: "Helvetica".to_owned(),
            font_name: "Helvetica".to_owned(),
            path: Some("/fonts/helvetica.ttc".to_owned()),
            vertical: false,
            italic: false,
            slant: 0,
            weight: 0,
            width: 0,
        },
        CtDescriptor {
            family_name: "Ghost".to_owned(),
            font_name: "Ghost".to_owned(),
            path: None,
            vertical: false,
            italic: false,
            slant: 0,
            weight: 0,
            width: 0,
        },
    ];
    let fonts = core_text::fonts_from_descriptors(&descs);
    assert_eq!(fonts.len(), 1);
    assert_eq!(fonts[0].family_name, "Helvetica");
    assert_eq!(fonts[0].style, Style::Oblique(Some(0)));
    assert_eq!(fonts[0].weight, Weight::new(WEIGHT_NORMAL));
    assert_eq!(fonts[0].stretch, Stretch::new(STRETCH_NORMAL));
}

#[test]
fn dw_descriptors_convert() {
    let descs = vec![DwDescriptor {
        family_name: "Segoe UI".to_owned(),
        font_name: "Segoe UI Bold".to_owned(),
        path: "C:/Windows/Fonts/segoeuib.ttf".to_owned(),
        style: DWriteStyle::Normal,
        weight: DWriteWeight::Bold,
        stretch: DWriteStretch::Normal,
    }];
    let fonts = direct_write::fonts_from_descriptors(&descs);
    assert_eq!(fonts.len(), 1);
    assert_eq!(fonts[0].family_name, "Segoe UI");
    assert_eq!(fonts[0].weight, Weight::new(WEIGHT_BOLD));
    assert_eq!(fonts[0].stretch, Stretch::new(STRETCH_NORMAL));
}

#[test]
fn output_writers_start_empty() {
    let options = Options {
        print_features: PrintFeatures::Yes,
        print_writing_systems: PrintWritingSystems::No,
    };
    let human = HumanReadable::new(Vec::<u8>::new(), options);
    assert_eq!(human.fonts_written, 0);
    assert_eq!(human.options, options);
    let json = Json::new(Vec::<u8>::new(), options);
    assert!(json.features.is_empty());
    assert!(json.writing_systems.is_empty());
    assert_eq!(json.options, options);
}

#[test]
fn error_is_comparable() {
    assert_eq!(Error::SystemCollection, Error::SystemCollection);
}
