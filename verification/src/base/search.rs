//! The query model: one shape of search request and one shape of paged
//! answer for every source, whatever its backend looks like.

use vstd::prelude::*;

use crate::base::custom_filters::CustomFilters;
use crate::base::lang::LanguageKey;
use crate::base::source_info::ContentRating;
use crate::generate::series::Status;

verus! {

/// The page a request starts at where none is given.
pub const DEFAULT_PAGE: u32 = 1;

/// The page size of a request where none is given.
pub const DEFAULT_PER_PAGE: u32 = 20;

/// A search: free text, the page wanted, and filters.
#[derive(Debug, Clone, PartialEq, Eq)]
pub struct SearchRequest {
    /// What the user typed: a title, an author and the like.
    pub query: String,
    pub pagination: PaginationRequest,
    pub filters: SearchFilters,
}

/// Which page of the results is wanted. Pages count from one.
#[derive(Debug, Clone, Copy, PartialEq, Eq, Structural)]
pub struct PaginationRequest {
    pub page: u32,
    pub per_page: u32,
}

/// Filters on the attributes most sources know, and source-specific
/// filters by name. A filter that is `None` does not restrict the search.
#[derive(Debug, Clone, PartialEq, Eq)]
pub struct SearchFilters {
    pub genres: Option<Vec<String>>,
    pub status: Option<Status>,
    pub content_rating: Option<ContentRating>,
    pub language: Option<LanguageKey>,
    /// First and last year of publication, both included.
    pub year_range: Option<(u32, u32)>,
    pub authors: Option<Vec<String>>,
    pub artists: Option<Vec<String>>,
    pub custom_filters: CustomFilters,
}

/// One page of results.
#[derive(Debug, Clone, PartialEq, Eq)]
pub struct PaginatedResponse<T> {
    pub items: Vec<T>,
    /// The number of this page. Pages count from one.
    pub current_page: u32,
    /// The number of pages, where the source knows it.
    pub total_pages: Option<u32>,
    pub has_next_page: bool,
    /// The number of items on all pages, where the source knows it.
    pub total_items: Option<u32>,
}

impl PaginationRequest {
    /// The page is at least one and the page size is not zero.
    pub open spec fn wf(&self) -> bool {
        self.page >= 1 && self.per_page > 0
    }
}

impl Default for PaginationRequest {
    /// The first page, with [`DEFAULT_PER_PAGE`] items.
    fn default() -> (pagination: Self)
        ensures
            pagination == (PaginationRequest { page: DEFAULT_PAGE, per_page: DEFAULT_PER_PAGE }),
            pagination.wf(),
    {
        PaginationRequest { page: DEFAULT_PAGE, per_page: DEFAULT_PER_PAGE }
    }
}

impl SearchFilters {
    /// No filter restricts the search.
    pub open spec fn is_unfiltered(&self) -> bool {
        &&& self.genres is None
        &&& self.status is None
        &&& self.content_rating is None
        &&& self.language is None
        &&& self.year_range is None
        &&& self.authors is None
        &&& self.artists is None
        &&& self.custom_filters@ == Map::<Seq<char>, Seq<char>>::empty()
    }
}

impl Default for SearchFilters {
    /// No filter at all.
    fn default() -> (filters: Self)
        ensures
            filters.is_unfiltered(),
    {
        SearchFilters {
            genres: None,
            status: None,
            content_rating: None,
            language: None,
            year_range: None,
            authors: None,
            artists: None,
            custom_filters: CustomFilters::new(),
        }
    }
}

impl SearchRequest {
    /// A search for `query` with the default page and no filter.
    pub fn simple(query: String) -> (request: Self)
        ensures
            request.query == query,
            request.pagination == (PaginationRequest {
                page: DEFAULT_PAGE,
                per_page: DEFAULT_PER_PAGE,
            }),
            request.filters.is_unfiltered(),
    {
        SearchRequest {
            query,
            pagination: PaginationRequest::default(),
            filters: SearchFilters::default(),
        }
    }

    /// A search for `query` with the given page and no filter.
    pub fn with_pagination(query: String, page: u32, per_page: u32) -> (request: Self)
        ensures
            request.query == query,
            request.pagination == (PaginationRequest { page, per_page }),
            request.filters.is_unfiltered(),
    {
        SearchRequest {
            query,
            pagination: PaginationRequest { page, per_page },
            filters: SearchFilters::default(),
        }
    }

    /// The same search, restricted to the given genres.
    pub fn with_genres(self, genres: Vec<String>) -> (request: Self)
        ensures
            request == (SearchRequest {
                filters: SearchFilters { genres: Some(genres), ..self.filters },
                ..self
            }),
    {
        let mut request = self;
        request.filters.genres = Some(genres);
        request
    }

    /// The same search, restricted to series of the given status.
    pub fn with_status(self, status: Status) -> (request: Self)
        ensures
            request == (SearchRequest {
                filters: SearchFilters { status: Some(status), ..self.filters },
                ..self
            }),
    {
        let mut request = self;
        request.filters.status = Some(status);
        request
    }

    /// The same search, with the source-specific filter `key` set to
    /// `value`. A filter of that name is replaced.
    pub fn with_custom_filter(self, key: String, value: String) -> (request: Self)
        ensures
            request.query == self.query,
            request.pagination == self.pagination,
            request.filters.genres == self.filters.genres,
            request.filters.status == self.filters.status,
            request.filters.content_rating == self.filters.content_rating,
            request.filters.language == self.filters.language,
            request.filters.year_range == self.filters.year_range,
            request.filters.authors == self.filters.authors,
            request.filters.artists == self.filters.artists,
            request.filters.custom_filters@ == self.filters.custom_filters@.insert(key@, value@),
    {
        let SearchRequest { query, pagination, filters } = self;
        let SearchFilters {
            genres,
            status,
            content_rating,
            language,
            year_range,
            authors,
            artists,
            custom_filters,
        } = filters;
        SearchRequest {
            query,
            pagination,
            filters: SearchFilters {
                genres,
                status,
                content_rating,
                language,
                year_range,
                authors,
                artists,
                custom_filters: custom_filters.with(key, value),
            },
        }
    }
}

impl<T> PaginatedResponse<T> {
    /// The page number is at least one, and where the number of pages is
    /// known, there is a next page exactly if this is not the last one.
    pub open spec fn wf(&self) -> bool {
        &&& self.current_page >= 1
        &&& self.total_pages matches Some(total) ==> self.has_next_page == (self.current_page
            < total)
    }

    /// A page of a source that cannot tell how many pages there are:
    /// `has_next_page` is what the source found out by itself.
    pub fn new(items: Vec<T>, current_page: u32, has_next_page: bool) -> (response: Self)
        ensures
            response == (PaginatedResponse {
                items,
                current_page,
                total_pages: None,
                has_next_page,
                total_items: None,
            }),
            current_page >= 1 ==> response.wf(),
    {
        PaginatedResponse {
            items,
            current_page,
            total_pages: None,
            has_next_page,
            total_items: None,
        }
    }

    /// A page of a source that knows the totals: there is a next page
    /// exactly if this page is not the last.
    pub fn with_totals(items: Vec<T>, current_page: u32, total_pages: u32, total_items: u32) -> (response:
        Self)
        ensures
            response == (PaginatedResponse {
                items,
                current_page,
                total_pages: Some(total_pages),
                has_next_page: current_page < total_pages,
                total_items: Some(total_items),
            }),
            current_page >= 1 ==> response.wf(),
    {
        PaginatedResponse {
            items,
            current_page,
            total_pages: Some(total_pages),
            has_next_page: current_page < total_pages,
            total_items: Some(total_items),
        }
    }

    /// Whether this is page one.
    pub fn is_first_page(&self) -> (first: bool)
        ensures
            first == (self.current_page == 1),
    {
        self.current_page == 1
    }

    /// The number of items on this page.
    pub fn item_count(&self) -> (count: usize)
        ensures
            count == self.items@.len(),
    {
        self.items.len()
    }
}

} // verus!
