//! The types and functions of other crates that the library relies on.
//!
//! Nothing here is proved. Each item says what it takes from the crate it
//! names; the foreign values themselves stay opaque.

use vstd::prelude::*;

verus! {

/// The error of an HTTP request made with `reqwest`.
#[verifier::external_type_specification]
#[verifier::external_body]
pub struct ExTransportError(reqwest::Error);

/// The error of reading or writing JSON with `serde_json`.
#[verifier::external_type_specification]
#[verifier::external_body]
pub struct ExJsonError(serde_json::Error);

/// The error of parsing a URL with `url`.
#[verifier::external_type_specification]
#[verifier::external_body]
pub struct ExUrlParseError(url::ParseError);

/// A parsed group of CSS selectors of `scraper`.
#[verifier::external_type_specification]
#[verifier::external_body]
pub struct ExSelector(scraper::Selector);

/// The error of parsing CSS selectors with `scraper`.
#[verifier::external_type_specification]
#[verifier::external_body]
pub struct ExSelectorErrorKind(scraper::error::SelectorErrorKind);

/// What `scraper::Selector::parse` makes of a text: the selectors, or the
/// reason why the text is none.
pub uninterp spec fn selector_parse(css: Seq<char>) -> Result<
    scraper::Selector,
    scraper::error::SelectorErrorKind,
>;

/// `scraper::Selector::parse`: parses a comma-separated group of CSS
/// selectors. The outcome depends on the text alone.
pub assume_specification[ scraper::Selector::parse ](selectors: &str) -> (outcome: Result<
    scraper::Selector,
    scraper::error::SelectorErrorKind,
>)
    ensures
        outcome == selector_parse(selectors@),
;

/// The `Display` text of a `scraper::error::SelectorErrorKind`. Nothing is
/// stated of the text.
#[verifier::external_body]
pub(crate) fn selector_error_text(error: &scraper::error::SelectorErrorKind) -> (text: String) {
    error.to_string()
}

/// `reqwest::Error::is_timeout`: whether a timeout stands in the error's
/// chain of causes. Nothing is stated of the answer.
pub assume_specification[ reqwest::Error::is_timeout ](error: &reqwest::Error) -> (timed_out: bool)
;

/// `reqwest::Error::is_connect`: whether a failed connection stands in the
/// error's chain of causes. Nothing is stated of the answer.
pub assume_specification[ reqwest::Error::is_connect ](error: &reqwest::Error) -> (connect_failed:
    bool)
;

/// The `Display` text of a `serde_json::Error`. Nothing is stated of the
/// text.
#[verifier::external_body]
pub(crate) fn json_error_text(error: &serde_json::Error) -> (text: String) {
    error.to_string()
}

/// The `Display` text of a `url::ParseError`. Nothing is stated of the text.
#[verifier::external_body]
pub(crate) fn url_error_text(error: &url::ParseError) -> (text: String) {
    error.to_string()
}

} // verus!
