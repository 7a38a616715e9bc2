use font_enumeration::utils::case_insensitive_match;
use font_enumeration::{
    Collection, Font, Stretch, Style, Weight, STRETCH_NORMAL, WEIGHT_BOLD, WEIGHT_NORMAL,
};

fn sample_font(family: &str, name: &str, path: &str, weight: i64) -> Font {
    Font {
        family_name: family.to_owned(),
        font_name: name.to_owned(),
        path: path.to_owned(),
        style: Style::Normal,
        weight: Weight::new(weight),
        stretch: Stretch::new(STRETCH_NORMAL),
    }
}

fn sample_collection() -> Collection {
    Collection::from_fonts(vec![
        sample_font("Arial", "Arial Regular", "/fonts/arial.ttf", WEIGHT_NORMAL),
        sample_font("DejaVu Sans", "DejaVu Sans Book", "/fonts/dejavu.ttf", WEIGHT_NORMAL),
        sample_font("ARIAL", "Arial Bold", "/fonts/arialbd.ttf", WEIGHT_BOLD),
        sample_font("Arialine", "Arialine", "/fonts/arialine.ttf", WEIGHT_NORMAL),
        sample_font("Aria", "Aria", "/fonts/aria.ttf", WEIGHT_NORMAL),
    ])
}

#[test]
fn all_yields_every_record_in_order() {
    let collection = sample_collection();
    let all = collection.all();
    assert_eq!(all.len(), 5);
    assert_eq!(all[0].family_name, "Arial");
    assert_eq!(all[1].family_name, "DejaVu Sans");
    assert_eq!(all[2].family_name, "ARIAL");
    assert_eq!(all[3].family_name, "Arialine");
    assert_eq!(all[4].family_name, "Aria");
}

#[test]
fn all_is_restartable_and_deterministic() {
    let collection = sample_collection();
    let first: Vec<Font> = collection.all().into_iter().cloned().collect();
    let second: Vec<Font> = collection.all().into_iter().cloned().collect();
    assert_eq!(first, second);
}

#[test]
fn by_family_is_case_insensitive() {
    let collection = sample_collection();
    let a: Vec<Font> = collection.by_family("Arial").into_iter().cloned().collect();
    let b: Vec<Font> = collection.by_family("ARIAL").into_iter().cloned().collect();
    let c: Vec<Font> = collection.by_family("aRiAl").into_iter().cloned().collect();
    assert_eq!(a.len(), 2);
    assert_eq!(a[0].font_name, "Arial Regular");
    assert_eq!(a[1].font_name, "Arial Bold");
    assert_eq!(a, b);
    assert_eq!(a, c);
}

#[test]
fn by_family_rejects_substrings_and_superstrings() {
    let collection = sample_collection();
    // "Aria" and "Arialine" exist in the collection but must not match the
    // query "Arial", nor the other way round.
    let arial: Vec<Font> = collection.by_family("Arial").into_iter().cloned().collect();
    assert!(arial.iter().all(|f| f.family_name.len() == 5));
    let aria: Vec<Font> = collection.by_family("aria").into_iter().cloned().collect();
    assert_eq!(aria.len(), 1);
    assert_eq!(aria[0].font_name, "Aria");
    let arialine: Vec<Font> = collection.by_family("ARIALINE").into_iter().cloned().collect();
    assert_eq!(arialine.len(), 1);
    assert_eq!(arialine[0].font_name, "Arialine");
    assert_eq!(collection.by_family("Arials").len(), 0);
    assert_eq!(collection.by_family("Ari").len(), 0);
}

#[test]
fn take_yields_the_observed_records() {
    let collection = sample_collection();
    let views: Vec<Font> = collection.all().into_iter().cloned().collect();
    let owned: Vec<Font> = collection.take();
    assert_eq!(owned.len(), 5);
    assert_eq!(views, owned);
}

#[test]
fn take_on_empty_collection() {
    let collection = Collection::from_fonts(Vec::new());
    assert_eq!(collection.all().len(), 0);
    assert!(Collection::from_fonts(Vec::new()).take().is_empty());
}

#[test]
fn match_folds_case() {
    assert!(case_insensitive_match("Arial", "aRiAl"));
    assert!(case_insensitive_match("DejaVu Sans", "dejavu sans"));
    assert!(case_insensitive_match("A", "a"));
    assert!(case_insensitive_match("", ""));
    assert!(!case_insensitive_match("Arial", "Aria"));
    assert!(!case_insensitive_match("Arial", "Arials"));
    assert!(!case_insensitive_match("a", ""));
}

#[test]
fn match_compares_folded_streams_not_positions() {
    // Capital I with dot (U+0130) folds to two characters: 'i' followed by a
    // combining dot above. The comparison must work on the folded streams.
    assert!(case_insensitive_match("\u{130}", "i\u{307}"));
    assert!(!case_insensitive_match("\u{130}", "i"));
    assert!(!case_insensitive_match("\u{130}", ""));
    // Capital sharp s folds to the lowercase sharp s.
    assert!(case_insensitive_match("\u{1e9e}", "ß"));
}
