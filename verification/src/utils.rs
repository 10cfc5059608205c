//! Helpers for sources that read HTML.

use scraper::Selector;
use vstd::hash_map::StringHashMap;
use vstd::prelude::*;

use crate::error::{ParseContentType, SourceError, SourceResult};
use crate::foreign::{selector_error_text, selector_parse};

verus! {

/// The selectors that a list of named selector texts stands for, by name.
/// Where a name occurs twice, the later text counts.
pub open spec fn parsed_selectors(named: Seq<(&str, &str)>) -> Map<Seq<char>, Selector>
    decreases named.len(),
{
    if named.len() == 0 {
        Map::empty()
    } else {
        parsed_selectors(named.drop_last()).insert(
            named.last().0@,
            selector_parse(named.last().1@)->Ok_0,
        )
    }
}

/// The text at `i` is the first of the list that is no selector.
pub open spec fn is_first_unparsed(named: Seq<(&str, &str)>, i: int) -> bool {
    &&& 0 <= i < named.len()
    &&& selector_parse(named[i].1@) is Err
    &&& forall|j: int| 0 <= j < i ==> selector_parse(#[trigger] named[j].1@) is Ok
}

/// The error for a selector text that could not be parsed, from the name
/// it was given under and the parser's text.
pub fn selector_failure(name: &str, text: String) -> (error: SourceError)
    ensures
        error.is_plain_parse_error(
            ParseContentType::Html,
            "Failed to parse selector '"@ + name@ + "': "@ + text@,
        ),
{
    let mut details = String::from_str("Failed to parse selector '");
    details.append(name);
    details.append("': ");
    details.append(text.as_str());
    SourceError::ParseError {
        details,
        content_type: ParseContentType::Html,
        structure_changed: false,
    }
}

/// Parses a list of named CSS selector texts into a map from name to
/// selector. The first text that is no selector makes the whole call fail,
/// with a parse error that names it.
pub fn create_selectors(selectors: &[(&str, &str)]) -> (result: SourceResult<
    StringHashMap<Selector>,
>)
    ensures
        result is Ok <==> forall|i: int|
            0 <= i < selectors@.len() ==> selector_parse(#[trigger] selectors@[i].1@) is Ok,
        result matches Ok(map) ==> map@ == parsed_selectors(selectors@),
        result matches Err(error) ==> exists|i: int|
            #![trigger selectors@[i]]
            is_first_unparsed(selectors@, i) && error.is_plain_parse_error_about(
                ParseContentType::Html,
                "Failed to parse selector '"@ + selectors@[i].0@ + "': "@,
            ),
{
    let mut map: StringHashMap<Selector> = StringHashMap::new();
    let mut i: usize = 0;
    while i < selectors.len()
        invariant
            i <= selectors@.len(),
            map@ == parsed_selectors(selectors@.subrange(0, i as int)),
            forall|j: int| 0 <= j < i ==> selector_parse(#[trigger] selectors@[j].1@) is Ok,
        decreases selectors@.len() - i,
    {
        let (name, css) = selectors[i];
        match Selector::parse(css) {
            Ok(selector) => {
                map.insert(String::from_str(name), selector);
                proof {
                    let done = selectors@.subrange(0, i + 1);
                    assert(done.drop_last() =~= selectors@.subrange(0, i as int));
                    assert(done.last() == selectors@[i as int]);
                }
            },
            Err(reason) => {
                let error = selector_failure(name, selector_error_text(&reason));
                proof {
                    assert(is_first_unparsed(selectors@, i as int));
                    assert(selectors@[i as int].0@ == name@);
                }
                return Err(error);
            },
        }
        i += 1;
    }
    proof {
        assert(selectors@.subrange(0, i as int) =~= selectors@);
    }
    Ok(map)
}

} // verus!
