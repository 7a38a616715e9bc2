//! Enumeration of system fonts behind one platform-neutral data model.
//!
//! Each platform reports font attributes (slant, weight class, width) in its
//! own native units. This library normalizes those values into one canonical
//! representation: [`Style`], [`Weight`] and [`Stretch`]. The resulting
//! [`Font`] records are aggregated into an immutable [`Collection`] that can
//! be enumerated in full or filtered by family name, case-insensitively.
//!
//! The platform backends that query the operating system live outside this
//! library; they hand over plain descriptor values which the conversion
//! functions in [`fontconfig`], [`core_text`] and [`direct_write`] map onto
//! the canonical scale.
//!
//! Scalar attributes are stored as integers in thousandths of their
//! conventional unit, so a CSS weight of 400 is stored as `400_000` and a
//! stretch factor of 1.25 as `1_250`.

use vstd::prelude::*;

pub mod core_text;
pub mod direct_write;
pub mod fontconfig;
pub mod interpolate;
pub mod output;
pub mod utils;

verus! {

/// The single failure mode of this layer: the platform's font enumeration
/// service could not be initialized.
#[derive(Debug, Clone, Copy, PartialEq, Eq, Structural)]
pub enum Error {
    SystemCollection,
}

/// Weight corresponding to a CSS value of 100, in thousandths.
pub const WEIGHT_THIN: i64 = 100_000;

/// Weight corresponding to a CSS value of 200, in thousandths.
pub const WEIGHT_EXTRA_LIGHT: i64 = 200_000;

/// Weight corresponding to a CSS value of 300, in thousandths.
pub const WEIGHT_LIGHT: i64 = 300_000;

/// Weight corresponding to a CSS value of 350, in thousandths.
pub const WEIGHT_SEMI_LIGHT: i64 = 350_000;

/// Weight corresponding to a CSS value of 400, in thousandths.
pub const WEIGHT_NORMAL: i64 = 400_000;

/// Weight corresponding to a CSS value of 500, in thousandths.
pub const WEIGHT_MEDIUM: i64 = 500_000;

/// Weight corresponding to a CSS value of 600, in thousandths.
pub const WEIGHT_SEMI_BOLD: i64 = 600_000;

/// Weight corresponding to a CSS value of 700, in thousandths.
pub const WEIGHT_BOLD: i64 = 700_000;

/// Weight corresponding to a CSS value of 800, in thousandths.
pub const WEIGHT_EXTRA_BOLD: i64 = 800_000;

/// Weight corresponding to a CSS value of 900, in thousandths.
pub const WEIGHT_BLACK: i64 = 900_000;

/// Weight corresponding to a CSS value of 950, in thousandths.
pub const WEIGHT_EXTRA_BLACK: i64 = 950_000;

/// Weight class of a font, usually from 1 to 1000 on the CSS/OpenType scale.
///
/// The value is stored in thousandths of a CSS weight unit, so `Weight::new(400_000)`
/// is the regular weight. No range clamp is imposed; any value is accepted.
#[derive(Debug, Clone, Copy, PartialEq, Eq, Structural)]
pub struct Weight {
    pub value: i64,
}

impl Weight {
    /// Create the weight corresponding to the given CSS value, in thousandths.
    pub fn new(value: i64) -> (r: Weight)
        ensures
            r.value == value,
    {
        Weight { value }
    }

    /// The CSS value of this weight, in thousandths.
    pub fn value(self) -> (r: i64)
        ensures
            r == self.value,
    {
        self.value
    }
}

/// Character width 50% of normal, in thousandths.
pub const STRETCH_ULTRA_CONDENSED: i64 = 500;

/// Character width 62.5% of normal, in thousandths.
pub const STRETCH_EXTRA_CONDENSED: i64 = 625;

/// Character width 75% of normal, in thousandths.
pub const STRETCH_CONDENSED: i64 = 750;

/// Character width 87.5% of normal, in thousandths.
pub const STRETCH_SEMI_CONDENSED: i64 = 875;

/// Character width 100% of normal, in thousandths.
pub const STRETCH_NORMAL: i64 = 1_000;

/// Character width 112.5% of normal, in thousandths.
pub const STRETCH_SEMI_EXPANDED: i64 = 1_125;

/// Character width 125% of normal, in thousandths.
pub const STRETCH_EXPANDED: i64 = 1_250;

/// Character width 150% of normal, in thousandths.
pub const STRETCH_EXTRA_EXPANDED: i64 = 1_500;

/// Character width 200% of normal, in thousandths.
pub const STRETCH_ULTRA_EXPANDED: i64 = 2_000;

/// Stretch of a font: character width as a factor of the normal design.
///
/// The factor is stored in thousandths, so `Stretch::new(1_000)` is normal,
/// less is condensed, more is expanded.
#[derive(Debug, Clone, Copy, PartialEq, Eq, Structural)]
pub struct Stretch {
    pub value: i64,
}

impl Stretch {
    /// Create the specified stretch as a factor of normal, in thousandths.
    pub fn new(value: i64) -> (r: Stretch)
        ensures
            r.value == value,
    {
        Stretch { value }
    }

    /// The stretch factor, in thousandths of the normal width.
    pub fn value(self) -> (r: i64)
        ensures
            r == self.value,
    {
        self.value
    }
}

/// Style of a font.
#[derive(Debug, Clone, Copy)]
pub enum Style {
    /// Upright. Also known as "Roman".
    Normal,
    /// Italic style, usually a visually distinct design rather than a slanted one.
    Italic,
    /// Algorithmically slanted form; the angle is in thousandths of a degree
    /// when the platform reports one.
    Oblique(Option<i64>),
}

impl PartialEq for Style {
    fn eq(&self, other: &Style) -> (r: bool) {
        match (self, other) {
            (Style::Normal, Style::Normal) => true,
            (Style::Italic, Style::Italic) => true,
            (Style::Oblique(a), Style::Oblique(b)) => a == b,
            _ => false,
        }
    }
}

impl vstd::std_specs::cmp::PartialEqSpecImpl for Style {
    open spec fn obeys_eq_spec() -> bool {
        true
    }

    open spec fn eq_spec(&self, other: &Style) -> bool {
        *self == *other
    }
}

/// One installed font face: its identity plus canonical attributes.
#[derive(Debug, Clone)]
pub struct Font {
    pub family_name: String,
    pub font_name: String,
    pub path: String,
    pub style: Style,
    pub weight: Weight,
    pub stretch: Stretch,
}

impl PartialEq for Font {
    fn eq(&self, other: &Font) -> (r: bool) {
        self.family_name == other.family_name && self.font_name == other.font_name && self.path
            == other.path && self.style == other.style && self.weight == other.weight
            && self.stretch == other.stretch
    }
}

impl vstd::std_specs::cmp::PartialEqSpecImpl for Font {
    open spec fn obeys_eq_spec() -> bool {
        true
    }

    open spec fn eq_spec(&self, other: &Font) -> bool {
        self@ == other@
    }
}

/// The mathematical content of a [`Font`] record: each string replaced by its
/// character sequence.
pub ghost struct FontView {
    pub family_name: Seq<char>,
    pub font_name: Seq<char>,
    pub path: Seq<char>,
    pub style: Style,
    pub weight: Weight,
    pub stretch: Stretch,
}

impl View for Font {
    type V = FontView;

    open spec fn view(&self) -> FontView {
        FontView {
            family_name: self.family_name@,
            font_name: self.font_name@,
            path: self.path@,
            style: self.style,
            weight: self.weight,
            stretch: self.stretch,
        }
    }
}

/// The contents of a sequence of records, record by record.
pub open spec fn font_views(fonts: Seq<Font>) -> Seq<FontView> {
    fonts.map_values(|f: Font| f@)
}

/// An immutable snapshot of all installed fonts, in backend enumeration order.
pub struct Collection {
    all_fonts: Vec<Font>,
}

impl Collection {
    /// The records this collection holds, in storage order.
    pub closed spec fn view(&self) -> Seq<Font> {
        self.all_fonts@
    }

    /// Build the snapshot from already-converted records. The backend adapter
    /// enumerates the system fonts and converts each descriptor before this
    /// constructor stores them.
    pub fn from_fonts(fonts: Vec<Font>) -> (r: Collection)
        ensures
            r@ == fonts@,
    {
        Collection { all_fonts: fonts }
    }

    /// Borrowed views of every record, in storage order.
    pub fn all(&self) -> (r: Vec<&Font>)
        ensures
            r@.len() == self@.len(),
            forall|i: int| 0 <= i < r@.len() ==> *r@[i] == self@[i],
    {
        let mut out: Vec<&Font> = Vec::new();
        let mut i: usize = 0;
        while i < self.all_fonts.len()
            invariant
                i <= self.all_fonts.len(),
                out@.len() == i,
                forall|j: int| 0 <= j < i ==> *out@[j] == self@[j],
            decreases self.all_fonts.len() - i,
        {
            out.push(&self.all_fonts[i]);
            i = i + 1;
        }
        out
    }

    /// Borrowed views of the records whose family name matches `family_name`
    /// under ordinal case-insensitive comparison, in storage order.
    pub fn by_family<'c>(&'c self, family_name: &str) -> (r: Vec<&'c Font>)
        ensures
            view_targets(r@) == by_family_spec(self@, family_name@),
    {
        let mut out: Vec<&Font> = Vec::new();
        let mut i: usize = 0;
        while i < self.all_fonts.len()
            invariant
                0 <= i <= self.all_fonts@.len(),
                view_targets(out@) == by_family_spec(self.all_fonts@.take(i as int), family_name@),
            decreases self.all_fonts@.len() - i,
        {
            let font = &self.all_fonts[i];
            if utils::case_insensitive_match(font.family_name.as_str(), family_name) {
                out.push(font);
            }
            proof {
                assert(self.all_fonts@.take(i + 1).drop_last() =~= self.all_fonts@.take(i as int));
                assert(self.all_fonts@.take(i + 1).last() == self.all_fonts@[i as int]);
                assert(view_targets(out@) =~= by_family_spec(
                    self.all_fonts@.take(i + 1),
                    family_name@,
                ));
            }
            i = i + 1;
        }
        proof {
            assert(self.all_fonts@.take(i as int) =~= self.all_fonts@);
        }
        out
    }

    /// Consume the collection and return every record as an owned value.
    pub fn take(self) -> (r: Vec<Font>)
        ensures
            r@ == self@,
    {
        self.all_fonts
    }
}

/// The records, by value, that a sequence of borrowed views points at.
pub open spec fn view_targets(s: Seq<&Font>) -> Seq<Font> {
    s.map_values(|f: &Font| *f)
}

/// A record matches a family query when their lowercase-folded character
/// streams are equal.
pub open spec fn family_matches(f: Font, query: Seq<char>) -> bool {
    utils::fold_seq(f.family_name@) == utils::fold_seq(query)
}

/// The records of `fonts` that match `query`, in order.
pub open spec fn by_family_spec(fonts: Seq<Font>, query: Seq<char>) -> Seq<Font>
    decreases fonts.len(),
{
    if fonts.len() == 0 {
        Seq::empty()
    } else {
        let rest = by_family_spec(fonts.drop_last(), query);
        if family_matches(fonts.last(), query) {
            rest.push(fonts.last())
        } else {
            rest
        }
    }
}

/// Family filtering is symmetric under case permutation: two queries with the
/// same lowercase-folded stream select exactly the same records.
pub proof fn lemma_by_family_case_insensitive(fonts: Seq<Font>, q1: Seq<char>, q2: Seq<char>)
    requires
        utils::fold_seq(q1) == utils::fold_seq(q2),
    ensures
        by_family_spec(fonts, q1) == by_family_spec(fonts, q2),
    decreases fonts.len(),
{
    if fonts.len() > 0 {
        lemma_by_family_case_insensitive(fonts.drop_last(), q1, q2);
    }
}

/// Every record that family filtering selects matches the query; in
/// particular a record whose folded family stream has a different length from
/// the query's folded stream — a substring or superstring survives folding
/// with a different length — is never selected.
pub proof fn lemma_by_family_only_matches(fonts: Seq<Font>, query: Seq<char>)
    ensures
        forall|j: int|
            0 <= j < by_family_spec(fonts, query).len() ==> family_matches(
                #[trigger] by_family_spec(fonts, query)[j],
                query,
            ),
        forall|j: int|
            0 <= j < by_family_spec(fonts, query).len() ==> utils::fold_seq(
                (#[trigger] by_family_spec(fonts, query)[j]).family_name@,
            ).len() == utils::fold_seq(query).len(),
    decreases fonts.len(),
{
    if fonts.len() > 0 {
        lemma_by_family_only_matches(fonts.drop_last(), query);
    }
}

/// Enumeration is deterministic and restartable: any two results that satisfy
/// the contract of [`Collection::all`] on the same collection contents are the
/// same sequence of views.
pub proof fn lemma_all_repeatable(contents: Seq<Font>, r1: Seq<&Font>, r2: Seq<&Font>)
    requires
        r1.len() == contents.len(),
        forall|i: int| 0 <= i < contents.len() ==> *(#[trigger] r1[i]) == contents[i],
        r2.len() == contents.len(),
        forall|i: int| 0 <= i < contents.len() ==> *(#[trigger] r2[i]) == contents[i],
    ensures
        view_targets(r1) == view_targets(r2),
{
    assert(view_targets(r1) =~= view_targets(r2));
}

/// Detaching the records keeps them intact: the owned records that
/// [`Collection::take`] returns equal, field for field, the borrowed views
/// [`Collection::all`] gave out, in the same order.
pub proof fn lemma_take_matches_all(contents: Seq<Font>, views: Seq<&Font>, owned: Seq<Font>)
    requires
        views.len() == contents.len(),
        forall|i: int| 0 <= i < contents.len() ==> *(#[trigger] views[i]) == contents[i],
        owned == contents,
    ensures
        owned.len() == views.len(),
        forall|i: int| 0 <= i < owned.len() ==> owned[i] == *(#[trigger] views[i]),
{
}

} // verus!
