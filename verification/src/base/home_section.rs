use vstd::prelude::*;

use crate::generate::series::SeriesEntry;

verus! {

/// How the host lays out a section of the home page.
#[derive(Debug, Clone, Copy, PartialEq, Eq, Structural)]
pub enum HomeSectionType {
    SingleRowNormal,
    SingleRowLarge,
    DoubleRow,
    Featured,
}

/// One section of a source's home page.
#[derive(Debug, Clone, PartialEq, Eq)]
pub struct HomeSection {
    pub id: String,
    pub title: String,
    pub contain_more_items: bool,
    pub section_type: HomeSectionType,
    pub entries: Vec<SeriesEntry>,
}

} // verus!
