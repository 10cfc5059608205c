use rrtypes::error::{
    BlockType, ErrorContext, ErrorSeverity, ParseContentType, SourceError, NETWORK_RETRY_SECS,
    TIMEOUT_RETRY_SECS,
};
use std::time::Duration;

fn text(s: &str) -> String {
    s.to_string()
}

/// One value of each of the sixteen variants, with whether the host may
/// retry it by itself.
fn one_of_each() -> Vec<(SourceError, bool)> {
    vec![
        (SourceError::NetworkError { message: text("reset"), retryable: true }, true),
        (SourceError::NetworkError { message: text("refused"), retryable: false }, false),
        (SourceError::Timeout { timeout: Duration::from_secs(30) }, true),
        (SourceError::RateLimit { retry_after: 42, message: None }, true),
        (SourceError::AuthRequired { reason: text("login"), auth_url: None }, false),
        (SourceError::Forbidden { reason: text("no") }, false),
        (SourceError::NotFound { resource: text("series/1"), suggestion: None }, false),
        (
            SourceError::NotFound { resource: text("series/1"), suggestion: Some(text("Search")) },
            false,
        ),
        (
            SourceError::ParseError {
                details: text("x"),
                content_type: ParseContentType::Html,
                structure_changed: false,
            },
            false,
        ),
        (
            SourceError::ParseError {
                details: text("x"),
                content_type: ParseContentType::Html,
                structure_changed: true,
            },
            false,
        ),
        (SourceError::InvalidQuery { reason: text("empty"), suggestions: vec![] }, false),
        (
            SourceError::SourceUnavailable {
                reason: text("maintenance"),
                estimated_downtime: Some(Duration::from_secs(600)),
            },
            true,
        ),
        (
            SourceError::ConfigurationError {
                setting: text("lang"),
                expected: text("en"),
                current: text("xx"),
            },
            false,
        ),
        (
            SourceError::UnsupportedOperation { operation: text("home_page"), alternatives: vec![] },
            false,
        ),
        (SourceError::InvalidPagination { reason: text("page"), max_allowed: Some(50) }, false),
        (
            SourceError::InvalidFilter {
                filter_name: text("genres"),
                reason: text("unknown"),
                valid_values: vec![text("Action")],
            },
            false,
        ),
        (
            SourceError::ContentBlocked { reason: text("region"), block_type: BlockType::Geographic },
            false,
        ),
        (
            SourceError::ContentBlocked { reason: text("pay"), block_type: BlockType::Paywall },
            false,
        ),
        (SourceError::ImageError { url: text("http://x/1.png"), src: None }, false),
        (SourceError::Unexpected { message: text("bug"), error_code: Some(text("E42")) }, false),
    ]
}

#[test]
fn network_keeps_message_and_flag() {
    assert_eq!(
        SourceError::network(text("reset by peer"), true),
        SourceError::NetworkError { message: text("reset by peer"), retryable: true }
    );
    assert_eq!(
        SourceError::network(text("refused"), false),
        SourceError::NetworkError { message: text("refused"), retryable: false }
    );
}

#[test]
fn rate_limit_has_no_message() {
    assert_eq!(
        SourceError::rate_limit(17),
        SourceError::RateLimit { retry_after: 17, message: None }
    );
}

#[test]
fn rate_limit_with_message_keeps_the_message() {
    assert_eq!(
        SourceError::rate_limit_with_message(17, text("slow down")),
        SourceError::RateLimit { retry_after: 17, message: Some(text("slow down")) }
    );
}

#[test]
fn parse_error_is_not_structure_drift() {
    assert_eq!(
        SourceError::parse_error(text("bad tag"), ParseContentType::ChapterList),
        SourceError::ParseError {
            details: text("bad tag"),
            content_type: ParseContentType::ChapterList,
            structure_changed: false,
        }
    );
}

#[test]
fn structure_changed_is_structure_drift() {
    assert_eq!(
        SourceError::structure_changed(text("no list"), ParseContentType::SearchResults),
        SourceError::ParseError {
            details: text("no list"),
            content_type: ParseContentType::SearchResults,
            structure_changed: true,
        }
    );
}

#[test]
fn not_found_with_suggestion_keeps_both() {
    assert_eq!(
        SourceError::not_found_with_suggestion(text("series/9"), text("Try the search")),
        SourceError::NotFound { resource: text("series/9"), suggestion: Some(text("Try the search")) }
    );
}

#[test]
fn is_retryable_over_all_variants() {
    for (error, retryable) in one_of_each() {
        assert_eq!(error.is_retryable(), retryable, "{:?}", error);
    }
}

#[test]
fn retry_after_gives_the_documented_hints() {
    assert_eq!(SourceError::RateLimit { retry_after: 42, message: None }.retry_after(), Some(42));
    assert_eq!(SourceError::Timeout { timeout: Duration::from_secs(1) }.retry_after(), Some(5));
    assert_eq!(SourceError::network(text("down"), true).retry_after(), Some(3));
    assert_eq!(
        SourceError::NotFound { resource: text("x"), suggestion: None }.retry_after(),
        None
    );
    assert_eq!(TIMEOUT_RETRY_SECS, 5);
    assert_eq!(NETWORK_RETRY_SECS, 3);
}

#[test]
fn retry_after_of_a_zero_rate_limit_is_zero() {
    let error = SourceError::rate_limit(0);
    assert_eq!(error.retry_after(), Some(0));
    assert!(error.is_retryable());
}

#[test]
fn retry_after_is_none_for_what_is_not_retried_and_for_unavailable() {
    assert_eq!(SourceError::network(text("down"), false).retry_after(), None);
    assert_eq!(
        SourceError::SourceUnavailable { reason: text("m"), estimated_downtime: None }.retry_after(),
        None
    );
    for (error, retryable) in one_of_each() {
        if error.retry_after().is_some() {
            assert!(retryable, "{:?}", error);
        }
    }
}

#[test]
fn every_variant_has_a_message_and_an_action() {
    for (error, _) in one_of_each() {
        let context = error.clone().to_context_at(0);
        assert!(!context.user_message.is_empty(), "{:?}", error);
        assert!(!context.suggested_actions.is_empty(), "{:?}", error);
        assert_eq!(context.error, error);
    }
}

fn classified(error: SourceError) -> ErrorContext {
    error.to_context_at(1_700_000_000)
}

#[test]
fn transient_network_failure_is_a_warning() {
    let context = classified(SourceError::network(text("reset"), true));
    assert_eq!(context.severity, ErrorSeverity::Warning);
    assert_eq!(
        context.user_message,
        "Connection failed. This might be a temporary network issue."
    );
    assert_eq!(
        context.suggested_actions,
        vec![text("Check your internet connection"), text("Try again in a few moments")]
    );
    assert!(!context.should_report);
    assert_eq!(context.timestamp, 1_700_000_000);
}

#[test]
fn rate_limit_is_information_with_the_wait_in_the_text() {
    let context = classified(SourceError::rate_limit(42));
    assert_eq!(context.severity, ErrorSeverity::Info);
    assert_eq!(
        context.user_message,
        "Too many requests. Please wait 42 seconds before trying again."
    );
    assert_eq!(context.suggested_actions, vec![text("Wait 42 seconds and try again")]);
    assert!(!context.should_report);
}

#[test]
fn rate_limit_of_zero_and_of_the_largest_wait() {
    let zero = classified(SourceError::rate_limit(0));
    assert_eq!(zero.user_message, "Too many requests. Please wait 0 seconds before trying again.");
    assert_eq!(zero.suggested_actions, vec![text("Wait 0 seconds and try again")]);
    let most = classified(SourceError::rate_limit(u64::MAX));
    assert_eq!(
        most.user_message,
        "Too many requests. Please wait 18446744073709551615 seconds before trying again."
    );
    assert_eq!(
        most.suggested_actions,
        vec![text("Wait 18446744073709551615 seconds and try again")]
    );
}

#[test]
fn timeout_is_a_warning_with_the_general_text() {
    let context = classified(SourceError::Timeout { timeout: Duration::from_secs(30) });
    assert_eq!(context.severity, ErrorSeverity::Warning);
    assert_eq!(context.user_message, "An error occurred while loading content.");
    assert_eq!(context.suggested_actions, vec![text("Try again"), text("Check your connection")]);
    assert!(!context.should_report);
}

#[test]
fn not_found_with_suggestion_proposes_the_suggestion() {
    let context =
        classified(SourceError::not_found_with_suggestion(text("series/9"), text("Try the search")));
    assert_eq!(context.severity, ErrorSeverity::Error);
    assert_eq!(context.user_message, "Content not found.");
    assert_eq!(context.suggested_actions, vec![text("Try the search")]);
    assert!(!context.should_report);
}

#[test]
fn not_found_without_suggestion_gets_the_general_text() {
    let context = classified(SourceError::NotFound { resource: text("x"), suggestion: None });
    assert_eq!(context.severity, ErrorSeverity::Error);
    assert_eq!(context.user_message, "An error occurred while loading content.");
    assert_eq!(context.suggested_actions, vec![text("Try again"), text("Check your connection")]);
}

#[test]
fn structure_drift_is_critical_and_reported() {
    let error = SourceError::structure_changed(text("x"), ParseContentType::Html);
    let context = classified(error.clone());
    assert_eq!(context.error, error);
    assert_eq!(context.severity, ErrorSeverity::Critical);
    assert_eq!(
        context.user_message,
        "The manga source appears to have changed. This extension may need an update."
    );
    assert_eq!(
        context.suggested_actions,
        vec![text("Check for extension updates"), text("Report this issue")]
    );
    assert!(context.should_report);
}

#[test]
fn plain_parse_error_is_an_error_and_not_reported() {
    let context = classified(SourceError::parse_error(text("x"), ParseContentType::Json));
    assert_eq!(context.severity, ErrorSeverity::Error);
    assert!(!context.should_report);
}

#[test]
fn auth_required_asks_to_sign_in() {
    let context =
        classified(SourceError::AuthRequired { reason: text("r"), auth_url: Some(text("u")) });
    assert_eq!(context.severity, ErrorSeverity::Error);
    assert_eq!(context.user_message, "Authentication required to access this content.");
    assert_eq!(
        context.suggested_actions,
        vec![text("Sign in to your account"), text("Check extension settings")]
    );
    assert!(!context.should_report);
}

#[test]
fn geographic_block_proposes_another_source() {
    let context = classified(SourceError::ContentBlocked {
        reason: text("r"),
        block_type: BlockType::Geographic,
    });
    assert_eq!(context.severity, ErrorSeverity::Error);
    assert_eq!(context.user_message, "This content is not available in your region.");
    assert_eq!(context.suggested_actions, vec![text("Try a different source")]);
    assert!(!context.should_report);
}

#[test]
fn other_blocks_get_the_general_text() {
    for block_type in [
        BlockType::AgeRestriction,
        BlockType::Authentication,
        BlockType::Paywall,
        BlockType::Maintenance,
    ] {
        let context = classified(SourceError::ContentBlocked { reason: text("r"), block_type });
        assert_eq!(context.severity, ErrorSeverity::Error);
        assert_eq!(context.user_message, "An error occurred while loading content.");
    }
}

#[test]
fn only_structure_drift_is_reported() {
    for (error, _) in one_of_each() {
        let drift = matches!(error, SourceError::ParseError { structure_changed: true, .. });
        let context = classified(error);
        assert_eq!(context.should_report, drift);
        assert_eq!(context.severity == ErrorSeverity::Critical, drift);
    }
}

#[test]
fn equal_errors_are_classified_alike() {
    for (error, _) in one_of_each() {
        let first = error.clone().to_context_at(1);
        let second = error.to_context_at(2);
        assert_eq!(first.severity, second.severity);
        assert_eq!(first.user_message, second.user_message);
        assert_eq!(first.suggested_actions, second.suggested_actions);
        assert_eq!(first.should_report, second.should_report);
        assert_ne!(first, second);
    }
}

#[test]
fn to_context_stamps_with_the_system_clock() {
    let context = SourceError::rate_limit(1).to_context();
    assert_eq!(context.severity, ErrorSeverity::Info);
    assert_eq!(context.user_message, "Too many requests. Please wait 1 seconds before trying again.");
    // The clock of any machine that runs this reads later than the year 2001.
    assert!(context.timestamp > 1_000_000_000);
}
