use vstd::prelude::*;

use crate::base::lang::LanguageKey;
use crate::generate::chapter::Chapter;

verus! {

/// The summary of a series in a list or in search results.
#[derive(Debug, Clone, PartialEq, Eq)]
pub struct SeriesEntry {
    pub source_id: String,
    pub series_id: String,
    pub title: String,
    pub cover_url: String,
}

/// The full record of a series.
#[derive(Debug, Clone, PartialEq, Eq)]
pub struct Series {
    pub source_id: String,
    pub series_id: String,
    pub title: String,
    pub alt_titles: Vec<String>,
    pub description: String,
    pub status: Status,
    pub cover_url: String,
    pub chapters: Vec<Chapter>,
    pub author: Vec<String>,
    pub artist: Vec<String>,
    pub tags: Vec<String>,
    pub hentai: bool,
    pub original_language: LanguageKey,
    pub number_unread: u64,
    pub number_chapters: u64,
}

/// Where a series stands in its publication.
#[derive(Debug, Clone, Copy, PartialEq, Eq, Structural)]
pub enum Status {
    Ongoing,
    Completed,
    Hiatus,
    Cancelled,
}

} // verus!
