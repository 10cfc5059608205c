use vstd::prelude::*;

verus! {

/// One chapter of a series.
///
/// `chapter_number` and `volume_number` are text: a source may label a
/// chapter "Extra", and the order of chapters is the order the source
/// gives them in.
#[derive(Debug, Clone, PartialEq, Eq)]
pub struct Chapter {
    pub id: String,
    pub series_id: String,
    pub source_id: String,
    pub title: String,
    pub chapter_number: String,
    pub volume_number: String,
    pub group_name: String,
    /// When the chapter was published, in seconds since the Unix epoch.
    pub time: u64,
    /// Whether the user has read the chapter. The host owns this flag.
    pub read: bool,
}

} // verus!
