//! The error taxonomy of source operations and its classifier.
//!
//! Every failure a source can report is one variant of [`SourceError`].
//! The host turns an error into an [`ErrorContext`], which carries what it
//! shows to the user, and asks [`SourceError::is_retryable`] and
//! [`SourceError::retry_after`] before it tries again.

use std::time::Duration;
use vstd::prelude::*;

use crate::clock::{unix_timestamp, whole_seconds};
use crate::foreign::{json_error_text, url_error_text};
use crate::text::{decimal, push_decimal};

verus! {

/// What a source was reading when parsing failed.
#[derive(Debug, Clone, Copy, PartialEq, Eq, Structural)]
pub enum ParseContentType {
    SearchResults,
    SeriesMetadata,
    ChapterList,
    HomePage,
    ImageUrl,
    Json,
    Html,
}

/// Why content is withheld from the user.
#[derive(Debug, Clone, Copy, PartialEq, Eq, Structural)]
pub enum BlockType {
    Geographic,
    AgeRestriction,
    Authentication,
    Paywall,
    Maintenance,
}

/// How urgent an error is for the host, whether or not it can be retried.
#[derive(Debug, Clone, Copy, PartialEq, Eq, Structural)]
pub enum ErrorSeverity {
    Info,
    Warning,
    Error,
    Critical,
}

/// A failure of a source operation. Each kind carries what the host needs
/// to act on it.
#[allow(inconsistent_fields)]
#[derive(Debug, Clone, PartialEq, Eq)]
pub enum SourceError {
    /// The connection failed. `retryable` says whether the failure is
    /// transient.
    NetworkError { message: String, retryable: bool },
    /// The request did not finish within `timeout`.
    Timeout { timeout: Duration },
    /// The upstream asks to wait `retry_after` seconds. Zero means that
    /// the request can be repeated at once.
    RateLimit { retry_after: u64, message: Option<String> },
    /// The content is served to signed-in users only.
    AuthRequired { reason: String, auth_url: Option<String> },
    /// The upstream refuses to serve the content.
    Forbidden { reason: String },
    /// The resource does not exist upstream.
    NotFound { resource: String, suggestion: Option<String> },
    /// The answer of the upstream could not be read. `structure_changed`
    /// says that the upstream has changed its format, so that the source
    /// needs an update.
    ParseError { details: String, content_type: ParseContentType, structure_changed: bool },
    /// The search cannot be run as it was asked.
    InvalidQuery { reason: String, suggestions: Vec<String> },
    /// The source cannot be reached for now.
    SourceUnavailable { reason: String, estimated_downtime: Option<Duration> },
    /// A setting of the source has a value it cannot work with.
    ConfigurationError { setting: String, expected: String, current: String },
    /// The source does not offer the operation.
    UnsupportedOperation { operation: String, alternatives: Vec<String> },
    /// The page asked for cannot be served. `max_allowed` is the largest
    /// page size of the source, where it is known.
    InvalidPagination { reason: String, max_allowed: Option<u32> },
    /// The source cannot apply a filter of the request.
    InvalidFilter { filter_name: String, reason: String, valid_values: Vec<String> },
    /// The content is withheld from this user.
    ContentBlocked { reason: String, block_type: BlockType },
    /// An image could not be loaded.
    ImageError { url: String, src: Option<String> },
    /// A failure of no other kind. `error_code` is for telemetry.
    Unexpected { message: String, error_code: Option<String> },
}

/// What the host shows and does for one error.
///
/// A context is made by [`SourceError::to_context`] at the moment the error
/// reaches the host, and [`ErrorContext::is_classification`] holds of it.
#[derive(Debug, Clone, PartialEq, Eq)]
pub struct ErrorContext {
    pub error: SourceError,
    pub severity: ErrorSeverity,
    pub user_message: String,
    pub suggested_actions: Vec<String>,
    pub should_report: bool,
    /// Seconds since the Unix epoch at which the context was made.
    pub timestamp: u64,
}

impl ErrorContext {
    /// The context's fields are what the classifier derives from its error.
    pub open spec fn is_classification(&self) -> bool {
        &&& self.severity == self.error.spec_severity()
        &&& self.user_message@ == self.error.spec_user_message()
        &&& self.suggested_actions.deep_view() == self.error.spec_suggested_actions()
        &&& self.should_report == self.error.spec_should_report()
    }
}

/// The result of a source operation.
pub type SourceResult<T> = Result<T, SourceError>;

/// Seconds to wait before retrying after a timeout.
pub const TIMEOUT_RETRY_SECS: u64 = 5;

/// Seconds to wait before retrying after a retryable network failure.
pub const NETWORK_RETRY_SECS: u64 = 3;

impl SourceError {
    /// A network failure that is transient.
    pub open spec fn is_transient_network(&self) -> bool {
        *self matches SourceError::NetworkError { retryable, .. } && retryable
    }

    /// A parse failure caused by a change of the upstream structure.
    pub open spec fn is_structure_drift(&self) -> bool {
        *self matches SourceError::ParseError { structure_changed, .. } && structure_changed
    }

    /// A missing resource for which the source proposes something else.
    pub open spec fn is_not_found_with_suggestion(&self) -> bool {
        *self matches SourceError::NotFound { suggestion, .. } && suggestion is Some
    }

    /// Content withheld because of the user's region.
    pub open spec fn is_geo_blocked(&self) -> bool {
        *self matches SourceError::ContentBlocked { block_type, .. } && block_type
            == BlockType::Geographic
    }

    /// A parse failure of the given content, with exactly the given
    /// details, that is no change of the upstream structure.
    pub open spec fn is_plain_parse_error(
        &self,
        content_type: ParseContentType,
        details: Seq<char>,
    ) -> bool {
        &&& self is ParseError
        &&& self->details@ == details
        &&& self->content_type == content_type
        &&& !self->structure_changed
    }

    /// A parse failure of the given content, with details that begin with
    /// `opening`, that is no change of the upstream structure.
    pub open spec fn is_plain_parse_error_about(
        &self,
        content_type: ParseContentType,
        opening: Seq<char>,
    ) -> bool {
        &&& self is ParseError
        &&& opening.is_prefix_of(self->details@)
        &&& self->content_type == content_type
        &&& !self->structure_changed
    }

    /// Whether the host may retry the operation by itself.
    pub open spec fn spec_is_retryable(&self) -> bool {
        self.is_transient_network() || self is Timeout || self is RateLimit
            || self is SourceUnavailable
    }

    /// How many seconds the host should wait before it retries, if the
    /// error gives a hint.
    pub open spec fn spec_retry_after(&self) -> Option<u64> {
        if self is RateLimit {
            Some(self->RateLimit_retry_after)
        } else if self is Timeout {
            Some(TIMEOUT_RETRY_SECS)
        } else if self.is_transient_network() {
            Some(NETWORK_RETRY_SECS)
        } else {
            None
        }
    }

    /// The severity the classifier gives the error.
    pub open spec fn spec_severity(&self) -> ErrorSeverity {
        if self is RateLimit {
            ErrorSeverity::Info
        } else if self.is_transient_network() || self is Timeout {
            ErrorSeverity::Warning
        } else if self.is_structure_drift() {
            ErrorSeverity::Critical
        } else {
            ErrorSeverity::Error
        }
    }

    /// Whether the host should queue a bug report for the error.
    pub open spec fn spec_should_report(&self) -> bool {
        self.is_structure_drift()
    }

    /// The message the classifier writes for the user.
    pub open spec fn spec_user_message(&self) -> Seq<char> {
        if self.is_transient_network() {
            "Connection failed. This might be a temporary network issue."@
        } else if self is RateLimit {
            "Too many requests. Please wait "@ + decimal(self->RateLimit_retry_after as nat)
                + " seconds before trying again."@
        } else if self.is_not_found_with_suggestion() {
            "Content not found."@
        } else if self.is_structure_drift() {
            "The manga source appears to have changed. This extension may need an update."@
        } else if self is AuthRequired {
            "Authentication required to access this content."@
        } else if self.is_geo_blocked() {
            "This content is not available in your region."@
        } else {
            "An error occurred while loading content."@
        }
    }

    /// The recovery actions the classifier proposes, in the order shown.
    pub open spec fn spec_suggested_actions(&self) -> Seq<Seq<char>> {
        if self.is_transient_network() {
            seq!["Check your internet connection"@, "Try again in a few moments"@]
        } else if self is RateLimit {
            seq![
                "Wait "@ + decimal(self->RateLimit_retry_after as nat) + " seconds and try again"@,
            ]
        } else if self.is_not_found_with_suggestion() {
            seq![self->NotFound_suggestion->0@]
        } else if self.is_structure_drift() {
            seq!["Check for extension updates"@, "Report this issue"@]
        } else if self is AuthRequired {
            seq!["Sign in to your account"@, "Check extension settings"@]
        } else if self.is_geo_blocked() {
            seq!["Try a different source"@]
        } else {
            seq!["Try again"@, "Check your connection"@]
        }
    }

    /// A network failure with the given message.
    pub fn network(message: String, retryable: bool) -> (error: Self)
        ensures
            error == (SourceError::NetworkError { message, retryable }),
    {
        SourceError::NetworkError { message, retryable }
    }

    /// A rate limit without a message.
    pub fn rate_limit(retry_after: u64) -> (error: Self)
        ensures
            error == (SourceError::RateLimit { retry_after, message: None }),
    {
        SourceError::RateLimit { retry_after, message: None }
    }

    /// A rate limit with the message the source gave.
    pub fn rate_limit_with_message(retry_after: u64, message: String) -> (error: Self)
        ensures
            error == (SourceError::RateLimit { retry_after, message: Some(message) }),
    {
        SourceError::RateLimit { retry_after, message: Some(message) }
    }

    /// A parse failure that is not a change of the upstream structure.
    pub fn parse_error(details: String, content_type: ParseContentType) -> (error: Self)
        ensures
            error == (SourceError::ParseError { details, content_type, structure_changed: false }),
    {
        SourceError::ParseError { details, content_type, structure_changed: false }
    }

    /// A parse failure caused by a change of the upstream structure.
    pub fn structure_changed(details: String, content_type: ParseContentType) -> (error: Self)
        ensures
            error == (SourceError::ParseError { details, content_type, structure_changed: true }),
    {
        SourceError::ParseError { details, content_type, structure_changed: true }
    }

    /// A missing resource, with what the user could look for instead.
    pub fn not_found_with_suggestion(resource: String, suggestion: String) -> (error: Self)
        ensures
            error == (SourceError::NotFound { resource, suggestion: Some(suggestion) }),
    {
        SourceError::NotFound { resource, suggestion: Some(suggestion) }
    }

    /// Whether the host may retry the operation by itself.
    #[verifier::when_used_as_spec(spec_is_retryable)]
    pub fn is_retryable(&self) -> (retryable: bool)
        ensures
            retryable == self.spec_is_retryable(),
    {
        match self {
            SourceError::NetworkError { retryable, .. } => *retryable,
            SourceError::Timeout { .. } => true,
            SourceError::RateLimit { .. } => true,
            SourceError::SourceUnavailable { .. } => true,
            _ => false,
        }
    }

    /// How many seconds the host should wait before it retries; `None`
    /// where the host should not retry by itself.
    #[verifier::when_used_as_spec(spec_retry_after)]
    pub fn retry_after(&self) -> (wait: Option<u64>)
        ensures
            wait == self.spec_retry_after(),
    {
        match self {
            SourceError::RateLimit { retry_after, .. } => Some(*retry_after),
            SourceError::Timeout { .. } => Some(TIMEOUT_RETRY_SECS),
            SourceError::NetworkError { retryable: true, .. } => Some(NETWORK_RETRY_SECS),
            _ => None,
        }
    }
    /// Classifies the error for the host, stamped with the given time in
    /// seconds since the Unix epoch.
    pub fn to_context_at(self, timestamp: u64) -> (context: ErrorContext)
        ensures
            context.error == self,
            context.timestamp == timestamp,
            context.severity == self.spec_severity(),
            context.user_message@ == self.spec_user_message(),
            context.suggested_actions.deep_view() == self.spec_suggested_actions(),
            context.should_report == self.spec_should_report(),
            context.is_classification(),
            context.user_message@.len() > 0,
            context.suggested_actions@.len() > 0,
    {
        proof {
            lemma_classification_is_total(self);
        }
        let (severity, user_message, suggested_actions, should_report) = match &self {
            SourceError::NetworkError { retryable: true, .. } => (
                ErrorSeverity::Warning,
                String::from_str("Connection failed. This might be a temporary network issue."),
                two_actions("Check your internet connection", "Try again in a few moments"),
                false,
            ),
            SourceError::RateLimit { retry_after, .. } => {
                let mut message = String::from_str("Too many requests. Please wait ");
                push_decimal(&mut message, *retry_after);
                message.append(" seconds before trying again.");
                let mut action = String::from_str("Wait ");
                push_decimal(&mut action, *retry_after);
                action.append(" seconds and try again");
                (ErrorSeverity::Info, message, one_action(action), false)
            },
            SourceError::Timeout { .. } => (
                ErrorSeverity::Warning,
                String::from_str("An error occurred while loading content."),
                two_actions("Try again", "Check your connection"),
                false,
            ),
            SourceError::NotFound { suggestion: Some(suggestion), .. } => (
                ErrorSeverity::Error,
                String::from_str("Content not found."),
                one_action(suggestion.clone()),
                false,
            ),
            SourceError::ParseError { structure_changed: true, .. } => (
                ErrorSeverity::Critical,
                String::from_str(
                    "The manga source appears to have changed. This extension may need an update.",
                ),
                two_actions("Check for extension updates", "Report this issue"),
                true,
            ),
            SourceError::AuthRequired { .. } => (
                ErrorSeverity::Error,
                String::from_str("Authentication required to access this content."),
                two_actions("Sign in to your account", "Check extension settings"),
                false,
            ),
            SourceError::ContentBlocked { block_type: BlockType::Geographic, .. } => (
                ErrorSeverity::Error,
                String::from_str("This content is not available in your region."),
                one_action(String::from_str("Try a different source")),
                false,
            ),
            _ => (
                ErrorSeverity::Error,
                String::from_str("An error occurred while loading content."),
                two_actions("Try again", "Check your connection"),
                false,
            ),
        };
        ErrorContext {
            error: self,
            severity,
            user_message,
            suggested_actions,
            should_report,
            timestamp,
        }
    }

    /// Classifies the error for the host, stamped with the system clock.
    pub fn to_context(self) -> (context: ErrorContext)
        ensures
            context.error == self,
            context.is_classification(),
            context.user_message@.len() > 0,
            context.suggested_actions@.len() > 0,
    {
        let now = unix_timestamp();
        self.to_context_at(now)
    }
}

/// Every error has a message for the user that is not empty, and at least
/// one recovery action.
pub proof fn lemma_classification_is_total(error: SourceError)
    ensures
        error.spec_user_message().len() > 0,
        error.spec_suggested_actions().len() > 0,
{
    reveal_strlit("Connection failed. This might be a temporary network issue.");
    reveal_strlit("Too many requests. Please wait ");
    reveal_strlit("Content not found.");
    reveal_strlit(
        "The manga source appears to have changed. This extension may need an update.",
    );
    reveal_strlit("Authentication required to access this content.");
    reveal_strlit("This content is not available in your region.");
    reveal_strlit("An error occurred while loading content.");
}

/// Which errors the host may retry by itself, kind by kind: rate limits,
/// timeouts, unavailable sources and transient network failures, and no
/// other.
pub proof fn lemma_retryable_by_kind(error: SourceError)
    ensures
        error.spec_is_retryable() == (match error {
            SourceError::NetworkError { retryable, .. } => retryable,
            SourceError::Timeout { .. } => true,
            SourceError::RateLimit { .. } => true,
            SourceError::AuthRequired { .. } => false,
            SourceError::Forbidden { .. } => false,
            SourceError::NotFound { .. } => false,
            SourceError::ParseError { .. } => false,
            SourceError::InvalidQuery { .. } => false,
            SourceError::SourceUnavailable { .. } => true,
            SourceError::ConfigurationError { .. } => false,
            SourceError::UnsupportedOperation { .. } => false,
            SourceError::InvalidPagination { .. } => false,
            SourceError::InvalidFilter { .. } => false,
            SourceError::ContentBlocked { .. } => false,
            SourceError::ImageError { .. } => false,
            SourceError::Unexpected { .. } => false,
        }),
{
}

/// A retry hint is given for rate limits, timeouts and transient network
/// failures and for nothing else, and only for errors that can be retried.
/// An unavailable source can be retried, but gives no hint.
pub proof fn lemma_retry_hint_implies_retryable(error: SourceError)
    ensures
        error.spec_retry_after() is Some <==> error is RateLimit || error is Timeout
            || error.is_transient_network(),
        error.spec_retry_after() is Some ==> error.spec_is_retryable(),
        error.spec_is_retryable() && error.spec_retry_after() is None ==> error
            is SourceUnavailable,
{
}

/// Only a change of the upstream structure is critical, and only it is
/// reported.
pub proof fn lemma_only_structure_drift_is_reported(error: SourceError)
    ensures
        error.spec_should_report() <==> error.is_structure_drift(),
        error.spec_severity() == ErrorSeverity::Critical <==> error.is_structure_drift(),
{
}

/// What the classifier derives depends on the error alone: two contexts
/// of equal errors differ at most in their timestamps.
pub proof fn lemma_classification_depends_on_error_alone(a: ErrorContext, b: ErrorContext)
    requires
        a.is_classification(),
        b.is_classification(),
        a.error == b.error,
    ensures
        a.severity == b.severity,
        a.user_message@ == b.user_message@,
        a.suggested_actions.deep_view() == b.suggested_actions.deep_view(),
        a.should_report == b.should_report,
{
}

/// Seconds after which a request made with `reqwest` is taken to have
/// timed out.
pub const TRANSPORT_TIMEOUT_SECS: u64 = 30;

/// The error for a failed HTTP request, from what the transport says of
/// it: whether it timed out, whether the connection failed, and its text.
pub fn transport_failure(timed_out: bool, connect_failed: bool, text: String) -> (error:
    SourceError)
    ensures
        timed_out ==> error == (SourceError::Timeout {
            timeout: whole_seconds(TRANSPORT_TIMEOUT_SECS),
        }),
        !timed_out && connect_failed ==> error is NetworkError && error->NetworkError_message@
            == "Connection failed"@ && error->retryable,
        !timed_out && !connect_failed ==> error == (SourceError::NetworkError {
            message: text,
            retryable: false,
        }),
{
    if timed_out {
        SourceError::Timeout { timeout: Duration::from_secs(TRANSPORT_TIMEOUT_SECS) }
    } else if connect_failed {
        SourceError::network(String::from_str("Connection failed"), true)
    } else {
        SourceError::network(text, false)
    }
}

/// The error for JSON that could not be read, from the parser's text.
pub fn json_failure(text: String) -> (error: SourceError)
    ensures
        error.is_plain_parse_error(ParseContentType::Json, "JSON parsing failed: "@ + text@),
{
    let mut details = String::from_str("JSON parsing failed: ");
    details.append(text.as_str());
    SourceError::parse_error(details, ParseContentType::Json)
}

/// The error for a URL that could not be read, from the parser's text.
pub fn url_failure(text: String) -> (error: SourceError)
    ensures
        error.is_plain_parse_error(ParseContentType::ImageUrl, "URL parsing failed: "@ + text@),
{
    let mut details = String::from_str("URL parsing failed: ");
    details.append(text.as_str());
    SourceError::parse_error(details, ParseContentType::ImageUrl)
}

/// A failure of another library that has a place in the taxonomy.
pub trait IntoSourceError {
    /// The error of the taxonomy that stands for this failure.
    fn into_source_error(self) -> SourceError;
}

impl IntoSourceError for reqwest::Error {
    /// What [`transport_failure`] makes of what `reqwest` says of the
    /// failure: whether it timed out, whether it could connect, its text.
    fn into_source_error(self) -> (error: SourceError)
        ensures
            error is Timeout || error is NetworkError,
            error is Timeout ==> error->timeout == whole_seconds(TRANSPORT_TIMEOUT_SECS),
            error is NetworkError && error->retryable ==> error->NetworkError_message@
                == "Connection failed"@,
            error is Timeout ==> call_ensures(reqwest::Error::is_timeout, (&self,), true),
            error is NetworkError ==> call_ensures(reqwest::Error::is_timeout, (&self,), false),
            error is NetworkError ==> call_ensures(
                reqwest::Error::is_connect,
                (&self,),
                error->retryable,
            ),
            error is NetworkError && !error->retryable
                ==> vstd::string::to_string_from_display_ensures::<reqwest::Error>(
                &self,
                error->NetworkError_message,
            ),
    {
        let timed_out = self.is_timeout();
        let connect_failed = self.is_connect();
        let text = self.to_string();
        transport_failure(timed_out, connect_failed, text)
    }
}

impl IntoSourceError for serde_json::Error {
    /// A parse failure of JSON content that quotes the parser's text.
    fn into_source_error(self) -> (error: SourceError)
        ensures
            error.is_plain_parse_error_about(ParseContentType::Json, "JSON parsing failed: "@),
    {
        let text = json_error_text(&self);
        json_failure(text)
    }
}

impl IntoSourceError for url::ParseError {
    /// A parse failure of an image URL that quotes the parser's text.
    fn into_source_error(self) -> (error: SourceError)
        ensures
            error.is_plain_parse_error_about(
                ParseContentType::ImageUrl,
                "URL parsing failed: "@,
            ),
    {
        let text = url_error_text(&self);
        url_failure(text)
    }
}

/// A list of one recovery action.
fn one_action(action: String) -> (actions: Vec<String>)
    ensures
        actions.deep_view() == seq![action@],
{
    let mut actions = Vec::new();
    actions.push(action);
    assert(actions.deep_view() =~= seq![action@]);
    actions
}

/// A list of two recovery actions.
fn two_actions(first: &str, second: &str) -> (actions: Vec<String>)
    ensures
        actions.deep_view() == seq![first@, second@],
{
    let mut actions = Vec::new();
    actions.push(String::from_str(first));
    actions.push(String::from_str(second));
    assert(actions.deep_view() =~= seq![first@, second@]);
    actions
}

} // verus!
