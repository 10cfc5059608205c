//! The source contract: the four operations of a source, and what the host
//! checks before it invokes one.
//!
//! A source is either active or inactive, declares its capabilities, and
//! may declare limits on what it is asked. The host holds each request
//! against that declaration in a fixed order: the state, the capability the
//! operation needs, then the request itself. The first check that fails
//! decides the error, and the source is not invoked.

use vstd::prelude::*;

use crate::base::home_section::HomeSection;
use crate::base::search::{PaginatedResponse, PaginationRequest, SearchFilters, SearchRequest};
use crate::base::source_info::{Intent, SourceIntents};
use crate::error::{SourceError, SourceResult};
use crate::text::{decimal, push_decimal};
use crate::generate::series::{Series, SeriesEntry};

verus! {

/// Whether the host has enabled a source. Operations are valid only on an
/// active source.
#[derive(Debug, Clone, Copy, PartialEq, Eq, Structural)]
pub enum SourceState {
    Inactive,
    Active,
}

/// An operation of the source contract.
#[derive(Debug, Clone, Copy, PartialEq, Eq, Structural)]
pub enum Operation {
    HomePage,
    Search,
    Series,
    Chapter,
}

/// One of the filters that every source knows by name.
#[derive(Debug, Clone, Copy, PartialEq, Eq, Structural)]
pub enum FilterKind {
    Genres,
    Status,
    ContentRating,
    Language,
    YearRange,
    Authors,
    Artists,
}

/// Which of the named filters a source can apply.
#[derive(Debug, Clone, Copy, PartialEq, Eq, Structural)]
pub struct FilterSupport {
    pub genres: bool,
    pub status: bool,
    pub content_rating: bool,
    pub language: bool,
    pub year_range: bool,
    pub authors: bool,
    pub artists: bool,
}

/// What a source declares of itself for the host to hold requests against.
#[derive(Debug, Clone, Copy, PartialEq, Eq)]
pub struct SourceProfile {
    pub state: SourceState,
    pub intents: SourceIntents,
    /// The largest page size the source serves, where it declares one.
    pub max_per_page: Option<u32>,
    /// Whether the source can load a chapter only together with the id of
    /// its series.
    pub chapter_requires_series: bool,
    pub filters: FilterSupport,
}

/// Why the host does not invoke a source.
#[derive(Debug, Clone, Copy, PartialEq, Eq, Structural)]
pub enum Refusal {
    /// The source is not active.
    Inactive,
    /// The source does not declare the capability the operation needs.
    Unsupported { operation: Operation },
    /// The page number is below one.
    PageBelowOne { max_allowed: Option<u32> },
    /// The page size is zero.
    PageSizeZero { max_allowed: Option<u32> },
    /// The page size is above the maximum the source declares.
    PageSizeAboveMax { maximum: u32 },
    /// The source needs the id of the series to load a chapter, and none
    /// was given.
    MissingSeriesId,
    /// The request sets a filter that the source cannot apply.
    UnsupportedFilter { filter: FilterKind },
}

impl Operation {
    /// The name of the operation in errors.
    pub open spec fn spec_name(self) -> Seq<char> {
        match self {
            Operation::HomePage => "home_page"@,
            Operation::Search => "search"@,
            Operation::Series => "series"@,
            Operation::Chapter => "chapter"@,
        }
    }

    /// The name of the operation in errors.
    pub fn name(self) -> (name: &'static str)
        ensures
            name@ == self.spec_name(),
    {
        match self {
            Operation::HomePage => "home_page",
            Operation::Search => "search",
            Operation::Series => "series",
            Operation::Chapter => "chapter",
        }
    }

    /// The capability a source must declare for the operation: home page
    /// sections for the home page, series and chapters for a series and
    /// for a chapter, none for a search.
    pub open spec fn spec_required_intent(self) -> Option<Intent> {
        match self {
            Operation::HomePage => Some(Intent::HomepageSections),
            Operation::Search => None,
            Operation::Series => Some(Intent::MangaChapters),
            Operation::Chapter => Some(Intent::MangaChapters),
        }
    }

    /// The capability a source must declare for the operation.
    #[verifier::when_used_as_spec(spec_required_intent)]
    pub fn required_intent(self) -> (intent: Option<Intent>)
        ensures
            intent == self.spec_required_intent(),
    {
        match self {
            Operation::HomePage => Some(Intent::HomepageSections),
            Operation::Search => None,
            Operation::Series => Some(Intent::MangaChapters),
            Operation::Chapter => Some(Intent::MangaChapters),
        }
    }
}

impl FilterKind {
    /// The place of the filter among the fields of [`SearchFilters`].
    pub open spec fn rank(self) -> nat {
        match self {
            FilterKind::Genres => 0,
            FilterKind::Status => 1,
            FilterKind::ContentRating => 2,
            FilterKind::Language => 3,
            FilterKind::YearRange => 4,
            FilterKind::Authors => 5,
            FilterKind::Artists => 6,
        }
    }

    /// The name of the filter in errors: the name of its field in
    /// [`SearchFilters`].
    pub open spec fn spec_name(self) -> Seq<char> {
        match self {
            FilterKind::Genres => "genres"@,
            FilterKind::Status => "status"@,
            FilterKind::ContentRating => "content_rating"@,
            FilterKind::Language => "language"@,
            FilterKind::YearRange => "year_range"@,
            FilterKind::Authors => "authors"@,
            FilterKind::Artists => "artists"@,
        }
    }

    /// The name of the filter in errors.
    pub fn name(self) -> (name: &'static str)
        ensures
            name@ == self.spec_name(),
    {
        match self {
            FilterKind::Genres => "genres",
            FilterKind::Status => "status",
            FilterKind::ContentRating => "content_rating",
            FilterKind::Language => "language",
            FilterKind::YearRange => "year_range",
            FilterKind::Authors => "authors",
            FilterKind::Artists => "artists",
        }
    }
}

impl FilterSupport {
    /// Support for every named filter.
    pub fn all() -> (support: Self)
        ensures
            forall|filter: FilterKind| support.spec_supports(filter),
    {
        FilterSupport {
            genres: true,
            status: true,
            content_rating: true,
            language: true,
            year_range: true,
            authors: true,
            artists: true,
        }
    }

    /// Whether the source can apply the filter.
    pub open spec fn spec_supports(self, filter: FilterKind) -> bool {
        match filter {
            FilterKind::Genres => self.genres,
            FilterKind::Status => self.status,
            FilterKind::ContentRating => self.content_rating,
            FilterKind::Language => self.language,
            FilterKind::YearRange => self.year_range,
            FilterKind::Authors => self.authors,
            FilterKind::Artists => self.artists,
        }
    }

    /// Whether the source can apply the filter.
    #[verifier::when_used_as_spec(spec_supports)]
    pub fn supports(self, filter: FilterKind) -> (supported: bool)
        ensures
            supported == self.spec_supports(filter),
    {
        match filter {
            FilterKind::Genres => self.genres,
            FilterKind::Status => self.status,
            FilterKind::ContentRating => self.content_rating,
            FilterKind::Language => self.language,
            FilterKind::YearRange => self.year_range,
            FilterKind::Authors => self.authors,
            FilterKind::Artists => self.artists,
        }
    }
}

impl SearchFilters {
    /// Whether the request sets the named filter.
    pub open spec fn spec_sets(&self, filter: FilterKind) -> bool {
        match filter {
            FilterKind::Genres => self.genres is Some,
            FilterKind::Status => self.status is Some,
            FilterKind::ContentRating => self.content_rating is Some,
            FilterKind::Language => self.language is Some,
            FilterKind::YearRange => self.year_range is Some,
            FilterKind::Authors => self.authors is Some,
            FilterKind::Artists => self.artists is Some,
        }
    }

    /// Whether the request sets the named filter.
    #[verifier::when_used_as_spec(spec_sets)]
    pub fn sets(&self, filter: FilterKind) -> (set: bool)
        ensures
            set == self.spec_sets(filter),
    {
        match filter {
            FilterKind::Genres => self.genres.is_some(),
            FilterKind::Status => self.status.is_some(),
            FilterKind::ContentRating => self.content_rating.is_some(),
            FilterKind::Language => self.language.is_some(),
            FilterKind::YearRange => self.year_range.is_some(),
            FilterKind::Authors => self.authors.is_some(),
            FilterKind::Artists => self.artists.is_some(),
        }
    }
}

/// Whether the request sets `filter` and the source cannot apply it.
pub open spec fn blocks(
    filters: &SearchFilters,
    support: FilterSupport,
    filter: FilterKind,
) -> bool {
    filters.spec_sets(filter) && !support.spec_supports(filter)
}

/// The first filter of the request that the source cannot apply, in the
/// order of the fields of [`SearchFilters`]. Source-specific filters are
/// never refused: a source passes over the names it does not know.
pub open spec fn filter_refusal(filters: &SearchFilters, support: FilterSupport) -> Option<
    Refusal,
> {
    if blocks(filters, support, FilterKind::Genres) {
        Some(Refusal::UnsupportedFilter { filter: FilterKind::Genres })
    } else if blocks(filters, support, FilterKind::Status) {
        Some(Refusal::UnsupportedFilter { filter: FilterKind::Status })
    } else if blocks(filters, support, FilterKind::ContentRating) {
        Some(Refusal::UnsupportedFilter { filter: FilterKind::ContentRating })
    } else if blocks(filters, support, FilterKind::Language) {
        Some(Refusal::UnsupportedFilter { filter: FilterKind::Language })
    } else if blocks(filters, support, FilterKind::YearRange) {
        Some(Refusal::UnsupportedFilter { filter: FilterKind::YearRange })
    } else if blocks(filters, support, FilterKind::Authors) {
        Some(Refusal::UnsupportedFilter { filter: FilterKind::Authors })
    } else if blocks(filters, support, FilterKind::Artists) {
        Some(Refusal::UnsupportedFilter { filter: FilterKind::Artists })
    } else {
        None
    }
}

/// What is wrong with the page asked for, if anything: a page below one, a
/// page size of zero, or a page size above the maximum the source declares.
pub open spec fn pagination_refusal(
    pagination: PaginationRequest,
    max_per_page: Option<u32>,
) -> Option<Refusal> {
    if pagination.page < 1 {
        Some(Refusal::PageBelowOne { max_allowed: max_per_page })
    } else if pagination.per_page < 1 {
        Some(Refusal::PageSizeZero { max_allowed: max_per_page })
    } else if max_per_page is Some && pagination.per_page > max_per_page->0 {
        Some(Refusal::PageSizeAboveMax { maximum: max_per_page->0 })
    } else {
        None
    }
}

/// Holds the page asked for against the maximum page size a source
/// declares.
pub fn check_pagination(pagination: PaginationRequest, max_per_page: Option<u32>) -> (refusal:
    Option<Refusal>)
    ensures
        refusal == pagination_refusal(pagination, max_per_page),
        refusal is None <==> pagination.wf() && (max_per_page matches Some(max)
            ==> pagination.per_page <= max),
{
    if pagination.page < 1 {
        return Some(Refusal::PageBelowOne { max_allowed: max_per_page });
    }
    if pagination.per_page < 1 {
        return Some(Refusal::PageSizeZero { max_allowed: max_per_page });
    }
    match max_per_page {
        Some(max) if pagination.per_page > max => Some(
            Refusal::PageSizeAboveMax { maximum: max },
        ),
        _ => None,
    }
}

/// Holds the filters of a request against the filters a source can apply.
pub fn check_filters(filters: &SearchFilters, support: FilterSupport) -> (refusal: Option<Refusal>)
    ensures
        refusal == filter_refusal(filters, support),
{
    let order = [
        FilterKind::Genres,
        FilterKind::Status,
        FilterKind::ContentRating,
        FilterKind::Language,
        FilterKind::YearRange,
        FilterKind::Authors,
        FilterKind::Artists,
    ];
    let mut i: usize = 0;
    while i < 7
        invariant
            i <= 7,
            order@ == seq![
                FilterKind::Genres,
                FilterKind::Status,
                FilterKind::ContentRating,
                FilterKind::Language,
                FilterKind::YearRange,
                FilterKind::Authors,
                FilterKind::Artists,
            ],
            forall|j: int| 0 <= j < i ==> !blocks(filters, support, #[trigger] order@[j]),
        decreases 7 - i,
    {
        let filter = order[i];
        if filters.sets(filter) && !support.supports(filter) {
            return Some(Refusal::UnsupportedFilter { filter });
        }
        i += 1;
    }
    proof {
        assert(!blocks(filters, support, order@[0]));
        assert(!blocks(filters, support, order@[1]));
        assert(!blocks(filters, support, order@[2]));
        assert(!blocks(filters, support, order@[3]));
        assert(!blocks(filters, support, order@[4]));
        assert(!blocks(filters, support, order@[5]));
        assert(!blocks(filters, support, order@[6]));
    }
    None
}

impl Refusal {
    /// Whether `error` is the error by which the host reports the refusal.
    pub open spec fn reported_by(self, error: SourceError) -> bool {
        match self {
            Refusal::Inactive => error matches SourceError::SourceUnavailable {
                reason,
                estimated_downtime,
            } && reason@ == "Source is not active"@ && estimated_downtime is None,
            Refusal::Unsupported { operation } => error matches SourceError::UnsupportedOperation {
                operation: name,
                alternatives,
            } && name@ == operation.spec_name() && alternatives@.len() == 0,
            Refusal::PageBelowOne { max_allowed } => error matches SourceError::InvalidPagination {
                reason,
                max_allowed: reported,
            } && reason@ == "Page numbers start at 1"@ && reported == max_allowed,
            Refusal::PageSizeZero { max_allowed } => error matches SourceError::InvalidPagination {
                reason,
                max_allowed: reported,
            } && reason@ == "Page size must be at least 1"@ && reported == max_allowed,
            Refusal::PageSizeAboveMax { maximum } => error matches SourceError::InvalidPagination {
                reason,
                max_allowed: reported,
            } && reason@ == "Page size must not exceed "@ + decimal(maximum as nat) && reported
                == Some(maximum),
            Refusal::MissingSeriesId => error matches SourceError::InvalidQuery {
                reason,
                suggestions,
            } && reason@ == "This source needs the series id to load a chapter"@
                && suggestions@.len() == 0,
            Refusal::UnsupportedFilter { filter } => error matches SourceError::InvalidFilter {
                filter_name,
                reason,
                valid_values,
            } && filter_name@ == filter.spec_name() && reason@
                == "This source does not support this filter"@ && valid_values@.len() == 0,
        }
    }

    /// The error by which the host reports the refusal.
    pub fn into_error(self) -> (error: SourceError)
        ensures
            self.reported_by(error),
    {
        match self {
            Refusal::Inactive => SourceError::SourceUnavailable {
                reason: String::from_str("Source is not active"),
                estimated_downtime: None,
            },
            Refusal::Unsupported { operation } => SourceError::UnsupportedOperation {
                operation: String::from_str(operation.name()),
                alternatives: Vec::new(),
            },
            Refusal::PageBelowOne { max_allowed } => SourceError::InvalidPagination {
                reason: String::from_str("Page numbers start at 1"),
                max_allowed,
            },
            Refusal::PageSizeZero { max_allowed } => SourceError::InvalidPagination {
                reason: String::from_str("Page size must be at least 1"),
                max_allowed,
            },
            Refusal::PageSizeAboveMax { maximum } => {
                let mut reason = String::from_str("Page size must not exceed ");
                push_decimal(&mut reason, maximum as u64);
                SourceError::InvalidPagination { reason, max_allowed: Some(maximum) }
            },
            Refusal::MissingSeriesId => SourceError::InvalidQuery {
                reason: String::from_str("This source needs the series id to load a chapter"),
                suggestions: Vec::new(),
            },
            Refusal::UnsupportedFilter { filter } => SourceError::InvalidFilter {
                filter_name: String::from_str(filter.name()),
                reason: String::from_str("This source does not support this filter"),
                valid_values: Vec::new(),
            },
        }
    }
}

impl SourceProfile {
    /// Why the host does not invoke `operation`, as far as the state and
    /// the capabilities of the source decide: an inactive source is not
    /// invoked at all, an active one only for what it declares.
    pub open spec fn spec_check_operation(&self, operation: Operation) -> Option<Refusal> {
        if self.state != SourceState::Active {
            Some(Refusal::Inactive)
        } else if operation.spec_required_intent() is Some && !self.intents@.contains(
            operation.spec_required_intent()->0,
        ) {
            Some(Refusal::Unsupported { operation })
        } else {
            None
        }
    }

    /// Why the host does not pass the search on: the state of the source
    /// first, then the page asked for, then the filters.
    pub open spec fn spec_check_search(&self, request: &SearchRequest) -> Option<Refusal> {
        if self.spec_check_operation(Operation::Search) is Some {
            self.spec_check_operation(Operation::Search)
        } else if pagination_refusal(request.pagination, self.max_per_page) is Some {
            pagination_refusal(request.pagination, self.max_per_page)
        } else {
            filter_refusal(&request.filters, self.filters)
        }
    }

    /// Why the host does not ask for the chapter: the state and the
    /// capabilities of the source first, then the series id where the
    /// source needs one.
    pub open spec fn spec_check_chapter(&self, series_id: &Option<String>) -> Option<Refusal> {
        if self.spec_check_operation(Operation::Chapter) is Some {
            self.spec_check_operation(Operation::Chapter)
        } else if self.chapter_requires_series && *series_id is None {
            Some(Refusal::MissingSeriesId)
        } else {
            None
        }
    }

    /// Holds `operation` against the state and the capabilities of the
    /// source.
    #[verifier::when_used_as_spec(spec_check_operation)]
    pub fn check_operation(&self, operation: Operation) -> (refusal: Option<Refusal>)
        ensures
            refusal == self.spec_check_operation(operation),
    {
        match self.state {
            SourceState::Inactive => Some(Refusal::Inactive),
            SourceState::Active => match operation.required_intent() {
                Some(intent) if !self.intents.has(intent) => Some(
                    Refusal::Unsupported { operation },
                ),
                _ => None,
            },
        }
    }

    /// Holds a search against what the source declares.
    #[verifier::when_used_as_spec(spec_check_search)]
    pub fn check_search(&self, request: &SearchRequest) -> (refusal: Option<Refusal>)
        ensures
            refusal == self.spec_check_search(request),
    {
        let refusal = self.check_operation(Operation::Search);
        if refusal.is_some() {
            return refusal;
        }
        let page = check_pagination(request.pagination, self.max_per_page);
        if page.is_some() {
            return page;
        }
        check_filters(&request.filters, self.filters)
    }

    /// Holds a request for a chapter against what the source declares.
    #[verifier::when_used_as_spec(spec_check_chapter)]
    pub fn check_chapter(&self, series_id: &Option<String>) -> (refusal: Option<Refusal>)
        ensures
            refusal == self.spec_check_chapter(series_id),
    {
        let refusal = self.check_operation(Operation::Chapter);
        if refusal.is_some() {
            return refusal;
        }
        if self.chapter_requires_series && series_id.is_none() {
            return Some(Refusal::MissingSeriesId);
        }
        None
    }
}

/// The operations a source implements. What an operation returns is the
/// source's own business: nothing is stated of it here.
pub trait Source {
    /// The sections of the source's home page.
    fn home_page(&self) -> SourceResult<Vec<HomeSection>>;

    /// One page of the results of a search.
    fn search(&self, request: SearchRequest) -> SourceResult<PaginatedResponse<SeriesEntry>>;

    /// The full record of the series with the given id.
    fn series(&self, id: String) -> SourceResult<Series>;

    /// The URLs of the pages of a chapter.
    fn chapter(&self, series_id: Option<String>, chapter_id: String) -> SourceResult<Vec<String>>;
}

/// What an operation of a [`SourceInstance`] returns: where the host
/// refuses, the error that reports the refusal; else what the source
/// answered, which `passed_on` says of `result`.
pub open spec fn answers<T>(
    refusal: Option<Refusal>,
    result: SourceResult<T>,
    passed_on: bool,
) -> bool {
    match refusal {
        Some(refusal) => result matches Err(error) && refusal.reported_by(error),
        None => passed_on,
    }
}

/// A source together with what it declares. Every operation goes through
/// the host's checks first; the source is invoked only where none of them
/// refuses.
pub struct SourceInstance<S: Source> {
    pub profile: SourceProfile,
    pub source: S,
}

impl<S: Source> SourceInstance<S> {
    /// Asks the source for its home page sections, unless the source is
    /// inactive or does not declare home page sections. A source that does
    /// not declare them is never asked, so that it cannot answer with
    /// nothing where it should fail.
    pub fn home_page(&self) -> (result: SourceResult<Vec<HomeSection>>)
        ensures
            answers(
                self.profile.spec_check_operation(Operation::HomePage),
                result,
                call_ensures(S::home_page, (&self.source,), result),
            ),
            !self.profile.intents@.contains(Intent::HomepageSections) ==> result is Err,
            self.profile.state == SourceState::Active && !self.profile.intents@.contains(
                Intent::HomepageSections,
            ) ==> (result matches Err(error) && error is UnsupportedOperation),
    {
        match self.profile.check_operation(Operation::HomePage) {
            Some(refusal) => Err(refusal.into_error()),
            None => self.source.home_page(),
        }
    }

    /// Passes a search on to the source, unless the source is inactive or
    /// the request asks for a page or a filter that the source does not
    /// serve.
    pub fn search(&self, request: SearchRequest) -> (result: SourceResult<
        PaginatedResponse<SeriesEntry>,
    >)
        ensures
            answers(
                self.profile.spec_check_search(&request),
                result,
                call_ensures(S::search, (&self.source, request), result),
            ),
    {
        match self.profile.check_search(&request) {
            Some(refusal) => Err(refusal.into_error()),
            None => self.source.search(request),
        }
    }

    /// Asks the source for a series, unless the source is inactive or does
    /// not declare series and chapters.
    pub fn series(&self, id: String) -> (result: SourceResult<Series>)
        ensures
            answers(
                self.profile.spec_check_operation(Operation::Series),
                result,
                call_ensures(S::series, (&self.source, id), result),
            ),
    {
        match self.profile.check_operation(Operation::Series) {
            Some(refusal) => Err(refusal.into_error()),
            None => self.source.series(id),
        }
    }

    /// Asks the source for the pages of a chapter, unless the source is
    /// inactive, does not declare series and chapters, or needs a series
    /// id that was not given.
    pub fn chapter(&self, series_id: Option<String>, chapter_id: String) -> (result: SourceResult<
        Vec<String>,
    >)
        ensures
            answers(
                self.profile.spec_check_chapter(&series_id),
                result,
                call_ensures(S::chapter, (&self.source, series_id, chapter_id), result),
            ),
    {
        match self.profile.check_chapter(&series_id) {
            Some(refusal) => Err(refusal.into_error()),
            None => self.source.chapter(series_id, chapter_id),
        }
    }
}

/// A source that does not declare home page sections is never asked for
/// them. Where it is active, the refusal is that of an unsupported
/// operation; where it is inactive, that it is inactive.
pub proof fn lemma_home_page_needs_capability(profile: SourceProfile)
    requires
        !profile.intents@.contains(Intent::HomepageSections),
    ensures
        profile.spec_check_operation(Operation::HomePage) is Some,
        profile.state == SourceState::Active ==> profile.spec_check_operation(Operation::HomePage)
            == Some(Refusal::Unsupported { operation: Operation::HomePage }),
        profile.state == SourceState::Inactive ==> profile.spec_check_operation(
            Operation::HomePage,
        ) == Some(Refusal::Inactive),
{
}

/// An inactive source is invoked for nothing, whatever is asked of it.
pub proof fn lemma_inactive_source_refuses_all(
    profile: SourceProfile,
    operation: Operation,
    request: SearchRequest,
    series_id: Option<String>,
)
    requires
        profile.state == SourceState::Inactive,
    ensures
        profile.spec_check_operation(operation) == Some(Refusal::Inactive),
        profile.spec_check_search(&request) == Some(Refusal::Inactive),
        profile.spec_check_chapter(&series_id) == Some(Refusal::Inactive),
{
}

/// A search is passed on exactly if the source is active, the page asked
/// for is in order, and every named filter that is set can be applied.
pub proof fn lemma_search_admitted_iff(profile: SourceProfile, request: SearchRequest)
    ensures
        profile.spec_check_search(&request) is None <==> ({
            &&& profile.state == SourceState::Active
            &&& request.pagination.wf()
            &&& profile.max_per_page matches Some(max) ==> request.pagination.per_page <= max
            &&& forall|filter: FilterKind|
                request.filters.spec_sets(filter) ==> profile.filters.spec_supports(filter)
        }),
{
    if filter_refusal(&request.filters, profile.filters) is None {
        assert forall|filter: FilterKind|
            request.filters.spec_sets(filter) implies profile.filters.spec_supports(filter) by {
            lemma_filter_refusal_is_first(&request.filters, profile.filters, filter);
        }
    }
}

/// The filter that is refused is the first, in the order of the fields,
/// that the request sets and the source cannot apply; none is refused
/// exactly if there is no such filter.
pub proof fn lemma_filter_refusal_is_first(
    filters: &SearchFilters,
    support: FilterSupport,
    other: FilterKind,
)
    ensures
        filter_refusal(filters, support) is None ==> !blocks(filters, support, other),
        filter_refusal(filters, support) is Some ==> filter_refusal(filters, support)->0
            is UnsupportedFilter,
        filter_refusal(filters, support) matches Some(refusal) ==> blocks(
            filters,
            support,
            refusal->filter,
        ) && (blocks(filters, support, other) ==> refusal->filter.rank() <= other.rank()),
{
}

/// Each refusal is reported by an error of one kind, and only the refusal
/// of an inactive source by an error that the host retries by itself.
pub proof fn lemma_refusal_error_kind(refusal: Refusal, error: SourceError)
    requires
        refusal.reported_by(error),
    ensures
        refusal is Inactive <==> error is SourceUnavailable,
        refusal is Unsupported <==> error is UnsupportedOperation,
        refusal is PageBelowOne || refusal is PageSizeZero || refusal is PageSizeAboveMax <==> error
            is InvalidPagination,
        refusal is MissingSeriesId <==> error is InvalidQuery,
        refusal is UnsupportedFilter <==> error is InvalidFilter,
        error.spec_is_retryable() <==> refusal is Inactive,
        refusal is PageSizeAboveMax ==> error->InvalidPagination_max_allowed == Some(
            refusal->maximum,
        ),
{
}

} // verus!
