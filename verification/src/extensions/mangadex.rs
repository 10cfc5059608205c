use vstd::prelude::*;

use crate::base::lang::{Language, LanguageKey};
use crate::base::source_info::{ContentRating, Intent, SourceInfo, SourceIntents};

verus! {

/// What the MangaDex source declares of itself: content of every rating in
/// many languages, series with their chapters, and home page sections.
pub fn mangadex_factory() -> (info: SourceInfo)
    ensures
        info.version@ == "0.1.0"@,
        info.name@ == "MangaDex"@,
        info.description@
            == "MangaDex is a manga reader and community platform that allows users to read and share manga."@,
        info.content_rating == ContentRating::Multi,
        info.icon_url@ == "https://mangadex.org/favicon.ico"@,
        info.publisher@ == "Notreallyuri"@,
        info.publisher_url matches Some(url) && url@ == ""@,
        info.homepage_url@ == "https://mangadex.org"@,
        info.intents matches Some(intents) && intents@ == set![
            Intent::MangaChapters,
            Intent::HomepageSections,
        ],
        info.language.key == LanguageKey::Multi,
        info.badges is None,
{
    let intents = SourceIntents::of(Intent::MangaChapters) | SourceIntents::of(
        Intent::HomepageSections,
    );
    assert(intents@ =~= set![Intent::MangaChapters, Intent::HomepageSections]);
    SourceInfo {
        version: String::from_str("0.1.0"),
        name: String::from_str("MangaDex"),
        description: String::from_str(
            "MangaDex is a manga reader and community platform that allows users to read and share manga.",
        ),
        content_rating: ContentRating::Multi,
        icon_url: String::from_str("https://mangadex.org/favicon.ico"),
        publisher: String::from_str("Notreallyuri"),
        publisher_url: Some(String::from_str("")),
        homepage_url: String::from_str("https://mangadex.org"),
        intents: Some(intents),
        language: Language::new(LanguageKey::Multi),
        badges: None,
    }
}

} // verus!
