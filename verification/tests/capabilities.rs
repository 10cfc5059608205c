use rrtypes::base::badge::{Badge, BadgeColor};
use rrtypes::base::lang::{Language, LanguageKey};
use rrtypes::base::source_info::{
    ContentRating, Intent, SourceIntents, ALL_INTENTS, CLOADFARE_BYPASS_REQUIRED,
    HOMEPAGE_SECTIONS, MANGA_CHAPTERS, MANGA_TRACKING,
};
use rrtypes::extensions::mangadex_factory;

const EVERY_INTENT: [Intent; 4] = [
    Intent::MangaChapters,
    Intent::MangaTracking,
    Intent::HomepageSections,
    Intent::CloudflareBypassRequired,
];

#[test]
fn each_intent_has_its_own_bit() {
    assert_eq!(Intent::MangaChapters.bit(), 1);
    assert_eq!(Intent::MangaTracking.bit(), 2);
    assert_eq!(Intent::HomepageSections.bit(), 4);
    assert_eq!(Intent::CloudflareBypassRequired.bit(), 8);
    assert_eq!(MANGA_CHAPTERS, 1 << 0);
    assert_eq!(MANGA_TRACKING, 1 << 1);
    assert_eq!(HOMEPAGE_SECTIONS, 1 << 2);
    assert_eq!(CLOADFARE_BYPASS_REQUIRED, 1 << 3);
    assert_eq!(ALL_INTENTS, 15);
}

#[test]
fn empty_and_all() {
    assert!(SourceIntents::empty().is_empty());
    assert_eq!(SourceIntents::empty().bits(), 0);
    assert!(!SourceIntents::all().is_empty());
    assert_eq!(SourceIntents::all().bits(), 15);
    for intent in EVERY_INTENT {
        assert!(!SourceIntents::empty().has(intent));
        assert!(SourceIntents::all().has(intent));
    }
}

#[test]
fn of_holds_exactly_one_intent() {
    for intent in EVERY_INTENT {
        let one = SourceIntents::of(intent);
        assert_eq!(one.bits(), intent.bit());
        for other in EVERY_INTENT {
            assert_eq!(one.has(other), other == intent);
        }
    }
}

#[test]
fn union_holds_what_either_holds() {
    let chapters = SourceIntents::of(Intent::MangaChapters);
    let home = SourceIntents::of(Intent::HomepageSections);
    let both = chapters.union(home);
    assert_eq!(both.bits(), 5);
    assert!(both.has(Intent::MangaChapters));
    assert!(both.has(Intent::HomepageSections));
    assert!(!both.has(Intent::MangaTracking));
    assert!(!both.has(Intent::CloudflareBypassRequired));
    assert_eq!(both, home.union(chapters));
    assert_eq!(both, chapters | home);
    assert_eq!(both.union(both), both);
    assert_eq!(both.union(SourceIntents::empty()), both);
}

#[test]
fn contains_is_containment_of_sets() {
    let chapters = SourceIntents::of(Intent::MangaChapters);
    let home = SourceIntents::of(Intent::HomepageSections);
    let both = chapters | home;
    assert!(both.contains(chapters));
    assert!(both.contains(home));
    assert!(both.contains(both));
    assert!(both.contains(SourceIntents::empty()));
    assert!(!chapters.contains(both));
    assert!(!chapters.contains(home));
    assert!(SourceIntents::all().contains(both));
    assert!(!both.contains(SourceIntents::all()));
    assert!(SourceIntents::empty().contains(SourceIntents::empty()));
}

#[test]
fn intersection_and_difference() {
    let a = SourceIntents::of(Intent::MangaChapters) | SourceIntents::of(Intent::MangaTracking);
    let b = SourceIntents::of(Intent::MangaTracking) | SourceIntents::of(Intent::HomepageSections);
    assert_eq!(a.intersection(b), SourceIntents::of(Intent::MangaTracking));
    assert_eq!(a.difference(b), SourceIntents::of(Intent::MangaChapters));
    assert_eq!(b.difference(a), SourceIntents::of(Intent::HomepageSections));
    assert!(a.difference(a).is_empty());
    assert_eq!(a.intersection(SourceIntents::all()), a);
    assert!(a.intersection(SourceIntents::empty()).is_empty());
}

#[test]
fn from_bits_takes_known_bits_only() {
    assert_eq!(SourceIntents::from_bits(0), Some(SourceIntents::empty()));
    assert_eq!(
        SourceIntents::from_bits(5),
        Some(SourceIntents::of(Intent::MangaChapters) | SourceIntents::of(Intent::HomepageSections))
    );
    assert_eq!(SourceIntents::from_bits(15), Some(SourceIntents::all()));
    assert_eq!(SourceIntents::from_bits(16), None);
    assert_eq!(SourceIntents::from_bits(17), None);
    assert_eq!(SourceIntents::from_bits(u32::MAX), None);
    for bits in 0..16u32 {
        assert_eq!(SourceIntents::from_bits(bits).unwrap().bits(), bits);
    }
}

#[test]
fn from_bits_truncate_drops_unknown_bits() {
    assert_eq!(SourceIntents::from_bits_truncate(0), SourceIntents::empty());
    assert_eq!(SourceIntents::from_bits_truncate(16), SourceIntents::empty());
    assert_eq!(SourceIntents::from_bits_truncate(u32::MAX), SourceIntents::all());
    assert_eq!(SourceIntents::from_bits_truncate(0x14), SourceIntents::of(Intent::HomepageSections));
    assert_eq!(SourceIntents::from_bits_truncate(0x14).bits(), 4);
}

#[test]
fn mangadex_declares_chapters_and_home_page() {
    let info = mangadex_factory();
    assert_eq!(info.version, "0.1.0");
    assert_eq!(info.name, "MangaDex");
    assert_eq!(
        info.description,
        "MangaDex is a manga reader and community platform that allows users to read and share manga."
    );
    assert_eq!(info.content_rating, ContentRating::Multi);
    assert_eq!(info.icon_url, "https://mangadex.org/favicon.ico");
    assert_eq!(info.publisher, "Notreallyuri");
    assert_eq!(info.publisher_url, Some(String::new()));
    assert_eq!(info.homepage_url, "https://mangadex.org");
    let intents = info.intents.unwrap();
    assert_eq!(intents.bits(), MANGA_CHAPTERS | HOMEPAGE_SECTIONS);
    assert!(intents.has(Intent::MangaChapters));
    assert!(intents.has(Intent::HomepageSections));
    assert!(!intents.has(Intent::MangaTracking));
    assert!(!intents.has(Intent::CloudflareBypassRequired));
    assert_eq!(info.language, Language::new(LanguageKey::Multi));
    assert_eq!(info.language.key, LanguageKey::Multi);
    assert_eq!(info.badges, None);
}

#[test]
fn badge_colours_have_lower_case_names() {
    assert_eq!(BadgeColor::Default.to_str(), "default");
    assert_eq!(BadgeColor::Success.to_str(), "success");
    assert_eq!(BadgeColor::Info.to_str(), "info");
    assert_eq!(BadgeColor::Warning.to_str(), "warning");
    assert_eq!(BadgeColor::Danger.to_str(), "danger");
    let badge = Badge { text: "New".to_string(), badge_type: BadgeColor::Success };
    assert_eq!(badge.badge_type.to_str(), "success");
}
