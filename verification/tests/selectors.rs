use rrtypes::error::{ParseContentType, SourceError};
use rrtypes::utils::{create_selectors, selector_failure};
use scraper::{Html, Selector};

#[test]
fn create_selectors_parses_each_text_under_its_name() {
    let map = match create_selectors(&[("title", "h1.title"), ("links", "ul > li a[href]")]) {
        Ok(map) => map,
        Err(error) => panic!("{:?}", error),
    };
    assert_eq!(map.len(), 2);
    assert_eq!(map.get("title"), Some(&Selector::parse("h1.title").unwrap()));
    assert_eq!(map.get("links"), Some(&Selector::parse("ul > li a[href]").unwrap()));
    assert_ne!(map.get("title"), Some(&Selector::parse("h2.title").unwrap()));
    assert!(map.get("cover").is_none());
    assert!(!map.contains_key("cover"));
}

#[test]
fn created_selectors_select() {
    let map = match create_selectors(&[("title", "h1.title"), ("item", "li")]) {
        Ok(map) => map,
        Err(error) => panic!("{:?}", error),
    };
    let page = Html::parse_document(
        "<html><body><h1 class=\"title\">Berserk</h1><ul><li>1</li><li>2</li></ul></body></html>",
    );
    let titles: Vec<String> =
        page.select(map.get("title").unwrap()).map(|e| e.text().collect::<String>()).collect();
    assert_eq!(titles, vec!["Berserk".to_string()]);
    assert_eq!(page.select(map.get("item").unwrap()).count(), 2);
}

#[test]
fn create_selectors_of_nothing_is_an_empty_map() {
    let map = match create_selectors(&[]) {
        Ok(map) => map,
        Err(error) => panic!("{:?}", error),
    };
    assert!(map.is_empty());
    assert_eq!(map.len(), 0);
}

#[test]
fn create_selectors_lets_the_later_text_of_a_name_count() {
    let map = match create_selectors(&[("x", "div"), ("y", "span"), ("x", "p.note")]) {
        Ok(map) => map,
        Err(error) => panic!("{:?}", error),
    };
    assert_eq!(map.len(), 2);
    assert_eq!(map.get("x"), Some(&Selector::parse("p.note").unwrap()));
    assert_eq!(map.get("y"), Some(&Selector::parse("span").unwrap()));
}

#[test]
fn create_selectors_fails_on_the_first_text_that_is_no_selector() {
    let said = Selector::parse("div >").unwrap_err().to_string();
    let result = create_selectors(&[("good", "div"), ("bad", "div >"), ("worse", "!!")]);
    match result {
        Ok(_) => panic!("a text that is no selector was accepted"),
        Err(error) => assert_eq!(
            error,
            SourceError::ParseError {
                details: format!("Failed to parse selector 'bad': {}", said),
                content_type: ParseContentType::Html,
                structure_changed: false,
            }
        ),
    }
}

#[test]
fn create_selectors_rejects_the_empty_text() {
    assert!(Selector::parse("").is_err());
    match create_selectors(&[("empty", "")]) {
        Ok(_) => panic!("the empty text was accepted"),
        Err(SourceError::ParseError { details, content_type, structure_changed }) => {
            assert!(details.starts_with("Failed to parse selector 'empty': "));
            assert_eq!(content_type, ParseContentType::Html);
            assert!(!structure_changed);
        }
        Err(other) => panic!("{:?}", other),
    }
}

#[test]
fn selector_failure_names_the_selector_and_quotes_the_text() {
    assert_eq!(
        selector_failure("cover", "Unexpected EOL".to_string()),
        SourceError::ParseError {
            details: "Failed to parse selector 'cover': Unexpected EOL".to_string(),
            content_type: ParseContentType::Html,
            structure_changed: false,
        }
    );
    assert_eq!(
        selector_failure("", String::new()),
        SourceError::ParseError {
            details: "Failed to parse selector '': ".to_string(),
            content_type: ParseContentType::Html,
            structure_changed: false,
        }
    );
}
