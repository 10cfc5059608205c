use vstd::prelude::*;

verus! {

/// The language a source or a series is written in.
#[derive(Debug, Clone, Copy, PartialEq, Eq, Structural)]
pub enum LanguageKey {
    English,
    Japanese,
    Korean,
    Chinese,
    Spanish,
    French,
    /// More than one language.
    Multi,
}

/// The language a source declares.
#[derive(Debug, Clone, Copy, PartialEq, Eq, Structural)]
pub struct Language {
    pub key: LanguageKey,
}

impl Language {
    /// The language with the given key.
    pub fn new(key: LanguageKey) -> (language: Self)
        ensures
            language.key == key,
    {
        Language { key }
    }
}

} // verus!
