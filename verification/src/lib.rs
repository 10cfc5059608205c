//! Shared vocabulary between a manga-reading host and its source plugins:
//! the error taxonomy with its classifier, the uniform query model, the
//! capability model, and the rules a host applies before it invokes a source.

pub mod base;
pub mod clock;
pub mod error;
pub mod extensions;
pub mod foreign;
pub mod generate;
pub mod text;
pub mod utils;

pub use error::{
    json_failure, transport_failure, url_failure, BlockType, ErrorContext, ErrorSeverity,
    IntoSourceError, ParseContentType, SourceError, SourceResult,
};
pub use utils::{create_selectors, selector_failure};
