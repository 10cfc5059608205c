pub mod badge;
pub mod custom_filters;
pub mod home_section;
pub mod lang;
pub mod search;
pub mod source;
pub mod source_info;

pub use badge::{Badge, BadgeColor};
pub use custom_filters::CustomFilters;
pub use home_section::{HomeSection, HomeSectionType};
pub use lang::{Language, LanguageKey};
pub use search::{PaginatedResponse, PaginationRequest, SearchFilters, SearchRequest};
pub use source::{
    FilterKind, FilterSupport, Operation, Refusal, Source, SourceInstance, SourceProfile,
    SourceState,
};
pub use source_info::{ContentRating, Intent, SourceInfo, SourceIntents};
