//! State carried by the rendering front ends that report font metrics.
//!
//! A front end walks a sequence of fonts and pushes one report per font into
//! a sink: human-readable text or a JSON sequence. The writing itself is I/O
//! and lives with the caller; this module holds the writers' state and the
//! plain data they accumulate, so their construction is verified.

use vstd::prelude::*;

verus! {

/// Whether reports include the font's feature list.
#[derive(Debug, Clone, Copy, PartialEq, Eq, Structural)]
pub enum PrintFeatures {
    Yes,
    No,
}

/// Whether reports include the font's writing systems.
#[derive(Debug, Clone, Copy, PartialEq, Eq, Structural)]
pub enum PrintWritingSystems {
    Yes,
    No,
}

/// What a rendering front end includes in each report.
#[derive(Debug, Clone, Copy, PartialEq, Eq, Structural)]
pub struct Options {
    pub print_features: PrintFeatures,
    pub print_writing_systems: PrintWritingSystems,
}

/// One font feature as reported: its tag and the action's name.
#[derive(Debug, Clone, Copy)]
pub struct Feature {
    pub feature: u32,
    pub action: &'static str,
}

/// One writing system as reported: script and language tags.
#[derive(Debug, Clone, Copy, PartialEq, Eq, Structural)]
pub struct WritingSystem {
    pub script: u32,
    pub language: u32,
}

/// The human-readable front end: a sink plus the count of fonts already
/// written, which numbers the reports.
pub struct HumanReadable<W> {
    pub write: W,
    /// the number of fonts already written
    pub fonts_written: usize,
    /// output options
    pub options: Options,
}

impl<W> HumanReadable<W> {
    /// A fresh front end: nothing written yet.
    pub fn new(write: W, options: Options) -> (r: HumanReadable<W>)
        ensures
            r.write == write,
            r.fonts_written == 0,
            r.options == options,
    {
        HumanReadable { write, fonts_written: 0, options }
    }
}

/// The JSON front end: a serializer for the report sequence plus reusable
/// buffers for the per-font feature and writing-system lists.
pub struct Json<W> {
    pub serializer: W,
    pub options: Options,
    pub features: Vec<Feature>,
    pub writing_systems: Vec<WritingSystem>,
}

impl<W> Json<W> {
    /// A fresh front end with empty buffers.
    pub fn new(serializer: W, options: Options) -> (r: Json<W>)
        ensures
            r.serializer == serializer,
            r.options == options,
            r.features@ == Seq::<Feature>::empty(),
            r.writing_systems@ == Seq::<WritingSystem>::empty(),
    {
        Json { serializer, options, features: Vec::new(), writing_systems: Vec::new() }
    }
}

} // verus!
