use search_query::decimal::append_decimal;
use search_query::search::{Query, SearchResults};
use std::collections::HashMap;

#[test]
fn offset_and_limit() {
    let query = Query::new("space").with_offset(42).with_limit(21);
    assert_eq!(query.to_url(), "?q=space&offset=42&limit=21");
}

#[test]
fn bare_query() {
    assert_eq!(Query::new("space").to_url(), "?q=space");
}

#[test]
fn empty_query_text() {
    assert_eq!(Query::new("").to_url(), "?q=");
    assert_eq!(Query::new("").with_limit(0).to_url(), "?q=&limit=0");
}

#[test]
fn query_text_is_percent_encoded() {
    assert_eq!(Query::new("hello world").to_url(), "?q=hello%20world");
    assert_eq!(Query::new("&a%b!c.d?e").to_url(), "?q=%26a%25b%21c.d%3Fe");
    assert_eq!(Query::new("a-b_c.d~e").to_url(), "?q=a-b_c.d~e");
    assert_eq!(Query::new("x=y*z").to_url(), "?q=x%3Dy%2Az");
}

#[test]
fn query_text_beyond_ascii() {
    assert_eq!(
        Query::new("👾 Exterminate!").to_url(),
        "?q=%F0%9F%91%BE%20Exterminate%21"
    );
    assert_eq!(Query::new("é").to_url(), "?q=%C3%A9");
}

#[test]
fn url_begins_with_query_whatever_is_set() {
    let plain = Query::new("a b");
    let full = Query::new("a b")
        .with_offset(3)
        .with_filters("x")
        .with_facets_distribution(None)
        .with_attributes_to_highlight("title");
    assert!(plain.to_url().starts_with("?q=a%20b"));
    assert!(full.to_url().starts_with("?q=a%20b&"));
}

#[test]
fn every_parameter_in_fixed_order() {
    let query = Query::new("hello world")
        .with_offset(1)
        .with_limit(2)
        .with_filters("a = b")
        .with_facet_filters(vec![vec!["x"]])
        .with_facets_distribution(Some(vec!["g"]))
        .with_attributes_to_retrieve("title,overview")
        .with_attributes_to_crop("overview")
        .with_crop_length(10)
        .with_attributes_to_highlight("*");
    assert_eq!(
        query.to_url(),
        "?q=hello%20world&offset=1&limit=2&filters=a%20%3D%20b\
         &facetFilters=%5B%5B%22x%22%5D%5D&facetsDistribution=%5B%22g%22%5D\
         &attributesToRetrieve=title%2Coverview&attributesToCrop=overview\
         &cropLength=10&attributesToHighlight=%2A"
    );
}

#[test]
fn call_order_does_not_matter() {
    let one = Query::new("q")
        .with_attributes_to_highlight("h")
        .with_crop_length(5)
        .with_facet_filters(vec![vec!["a", "b"], vec!["c"]])
        .with_limit(9)
        .with_offset(8);
    let other = Query::new("q")
        .with_offset(8)
        .with_limit(9)
        .with_facet_filters(vec![vec!["a", "b"], vec!["c"]])
        .with_crop_length(5)
        .with_attributes_to_highlight("h");
    let expected = "?q=q&offset=8&limit=9\
                    &facetFilters=%5B%5B%22a%22%2C%22b%22%5D%2C%5B%22c%22%5D%5D\
                    &cropLength=5&attributesToHighlight=h";
    assert_eq!(one.to_url(), expected);
    assert_eq!(other.to_url(), expected);
}

#[test]
fn two_setters_commute() {
    let a = Query::new("x").with_filters("f").with_limit(1).to_url();
    let b = Query::new("x").with_limit(1).with_filters("f").to_url();
    assert_eq!(a, b);
    assert_eq!(a, "?q=x&limit=1&filters=f");
}

#[test]
fn last_value_wins() {
    assert_eq!(
        Query::new("x").with_offset(1).with_offset(2).to_url(),
        "?q=x&offset=2"
    );
    assert_eq!(
        Query::new("x").with_filters("a").with_filters("b").to_url(),
        "?q=x&filters=b"
    );
    assert_eq!(
        Query::new("x")
            .with_facets_distribution(Some(vec!["a"]))
            .with_facets_distribution(None)
            .to_url(),
        "?q=x&facetsDistribution=*"
    );
    assert_eq!(
        Query::new("x")
            .with_facet_filters(vec![vec!["a"]])
            .with_limit(4)
            .with_facet_filters(vec![])
            .to_url(),
        "?q=x&limit=4&facetFilters=%5B%5D"
    );
}

#[test]
fn unset_parameters_do_not_appear() {
    let url = Query::new("x").with_limit(5).to_url();
    assert_eq!(url, "?q=x&limit=5");
    for name in [
        "offset",
        "filters",
        "facetFilters",
        "facetsDistribution",
        "attributesToRetrieve",
        "attributesToCrop",
        "cropLength",
        "attributesToHighlight",
    ] {
        assert!(!url.contains(name));
    }
}

#[test]
fn zero_and_empty_values_appear_once_set() {
    assert_eq!(Query::new("x").with_offset(0).to_url(), "?q=x&offset=0");
    assert_eq!(Query::new("x").with_crop_length(0).to_url(), "?q=x&cropLength=0");
    assert_eq!(Query::new("x").with_filters("").to_url(), "?q=x&filters=");
    assert_eq!(
        Query::new("x").with_attributes_to_retrieve("").to_url(),
        "?q=x&attributesToRetrieve="
    );
    assert_eq!(
        Query::new("x").with_attributes_to_crop("").to_url(),
        "?q=x&attributesToCrop="
    );
    assert_eq!(
        Query::new("x").with_facet_filters(vec![]).to_url(),
        "?q=x&facetFilters=%5B%5D"
    );
}

#[test]
fn wildcard_and_empty_list_differ() {
    let all = Query::new("x").with_facets_distribution(None).to_url();
    let none = Query::new("x").with_facets_distribution(Some(vec![])).to_url();
    assert_eq!(all, "?q=x&facetsDistribution=*");
    assert_eq!(none, "?q=x&facetsDistribution=%5B%5D");
    assert_ne!(all, none);
}

#[test]
fn named_facets_are_json_then_encoded() {
    assert_eq!(
        Query::new("x")
            .with_facets_distribution(Some(vec!["genre", "year"]))
            .to_url(),
        "?q=x&facetsDistribution=%5B%22genre%22%2C%22year%22%5D"
    );
    assert_eq!(
        Query::new("x").with_facets_distribution(Some(vec!["*"])).to_url(),
        "?q=x&facetsDistribution=%5B%22%2A%22%5D"
    );
}

#[test]
fn facet_filters_are_json_then_encoded() {
    assert_eq!(
        Query::new("x")
            .with_facet_filters(vec![vec!["genre:horror", "genre:thriller"], vec!["year:2020"]])
            .to_url(),
        "?q=x&facetFilters=%5B%5B%22genre%3Ahorror%22%2C%22genre%3Athriller%22%5D\
         %2C%5B%22year%3A2020%22%5D%5D"
    );
    assert_eq!(
        Query::new("x").with_facet_filters(vec![vec![]]).to_url(),
        "?q=x&facetFilters=%5B%5B%5D%5D"
    );
}

#[test]
fn json_escapes_before_percent_encoding() {
    assert_eq!(
        Query::new("x").with_facets_distribution(Some(vec!["a\"b"])).to_url(),
        "?q=x&facetsDistribution=%5B%22a%5C%22b%22%5D"
    );
    assert_eq!(
        Query::new("x").with_facet_filters(vec![vec!["a\\b"]]).to_url(),
        "?q=x&facetFilters=%5B%5B%22a%5C%5Cb%22%5D%5D"
    );
}

#[test]
fn free_texts_are_percent_encoded() {
    assert_eq!(
        Query::new("x").with_filters("title = \"a&b\"").to_url(),
        "?q=x&filters=title%20%3D%20%22a%26b%22"
    );
    assert_eq!(
        Query::new("x").with_attributes_to_retrieve("title,overview").to_url(),
        "?q=x&attributesToRetrieve=title%2Coverview"
    );
    assert_eq!(
        Query::new("x").with_attributes_to_crop("over view").to_url(),
        "?q=x&attributesToCrop=over%20view"
    );
    assert_eq!(
        Query::new("x").with_attributes_to_highlight("a?b").to_url(),
        "?q=x&attributesToHighlight=a%3Fb"
    );
}

#[test]
fn url_with_given_json_texts() {
    let query = Query::new("x")
        .with_facet_filters(vec![vec!["ignored"]])
        .with_facets_distribution(Some(vec!["ignored"]));
    assert_eq!(
        query.to_url_with("[[\"a\"]]", "[]"),
        "?q=x&facetFilters=%5B%5B%22a%22%5D%5D&facetsDistribution=%5B%5D"
    );
    let wildcard = Query::new("x").with_facets_distribution(None);
    assert_eq!(wildcard.to_url_with("[1]", "[2]"), "?q=x&facetsDistribution=*");
    assert_eq!(Query::new("x").to_url_with("[1]", "[2]"), "?q=x");
}

#[test]
fn setters_leave_other_fields_alone() {
    let query = Query::new("x").with_limit(3).with_filters("f");
    assert_eq!(query.query, "x");
    assert_eq!(query.limit, Some(3));
    assert_eq!(query.filters, Some("f"));
    assert_eq!(query.offset, None);
    assert_eq!(query.facet_filters, None);
    assert_eq!(query.facets_distribution, None);
    assert_eq!(query.attributes_to_retrieve, None);
    assert_eq!(query.attributes_to_crop, None);
    assert_eq!(query.crop_length, None);
    assert_eq!(query.attributes_to_highlight, None);
}

#[test]
fn new_query_has_nothing_set() {
    let query = Query::new("anything");
    assert_eq!(query.query, "anything");
    assert!(query.offset.is_none() && query.limit.is_none() && query.crop_length.is_none());
    assert!(query.filters.is_none() && query.facet_filters.is_none());
    assert!(query.facets_distribution.is_none());
    assert!(query.attributes_to_retrieve.is_none());
    assert!(query.attributes_to_crop.is_none());
    assert!(query.attributes_to_highlight.is_none());
}

fn decimal_of(n: usize) -> String {
    let mut text = String::new();
    append_decimal(&mut text, n);
    text
}

#[test]
fn decimal_rendering() {
    assert_eq!(decimal_of(0), "0");
    assert_eq!(decimal_of(7), "7");
    assert_eq!(decimal_of(9), "9");
    assert_eq!(decimal_of(10), "10");
    assert_eq!(decimal_of(42), "42");
    assert_eq!(decimal_of(100), "100");
    assert_eq!(decimal_of(1234567890), "1234567890");
    assert_eq!(decimal_of(usize::MAX), usize::MAX.to_string());
}

#[test]
fn one_ampersand_for_each_parameter() {
    let query = Query::new("a&b")
        .with_filters("c&d")
        .with_facet_filters(vec![vec!["e&f"]])
        .with_facets_distribution(Some(vec!["g&h"]))
        .with_attributes_to_retrieve("i&j")
        .with_attributes_to_crop("k&l")
        .with_attributes_to_highlight("m&n");
    let url = query.to_url();
    assert_eq!(url.matches('&').count(), 6);
    let parts: Vec<&str> = url.split('&').collect();
    assert_eq!(
        parts,
        vec![
            "?q=a%26b",
            "filters=c%26d",
            "facetFilters=%5B%5B%22e%26f%22%5D%5D",
            "facetsDistribution=%5B%22g%26h%22%5D",
            "attributesToRetrieve=i%26j",
            "attributesToCrop=k%26l",
            "attributesToHighlight=m%26n",
        ]
    );
}

#[test]
fn decimal_is_appended() {
    let mut text = String::from("n=");
    append_decimal(&mut text, 905);
    assert_eq!(text, "n=905");
    append_decimal(&mut text, 0);
    assert_eq!(text, "n=9050");
}

#[test]
fn large_numbers_in_url() {
    assert_eq!(
        Query::new("x").with_offset(usize::MAX).to_url(),
        format!("?q=x&offset={}", usize::MAX)
    );
}

#[test]
fn answer_holds_its_fields() {
    let mut counts = HashMap::new();
    counts.insert(String::from("horror"), 3usize);
    let mut facets = HashMap::new();
    facets.insert(String::from("genre"), counts);
    let answer = SearchResults {
        hits: vec![String::from("doc")],
        offset: 0,
        limit: 20,
        nb_hits: 1,
        exhaustive_nb_hits: true,
        facets_distribution: Some(facets),
        exhaustive_facets_count: Some(false),
        processing_time_ms: 1,
        query: String::from("x"),
    };
    assert_eq!(answer.hits, vec![String::from("doc")]);
    assert_eq!(answer.limit, 20);
    assert_eq!(answer.nb_hits, 1);
    assert!(answer.exhaustive_nb_hits);
    assert_eq!(answer.facets_distribution.unwrap()["genre"]["horror"], 3);
    assert_eq!(answer.exhaustive_facets_count, Some(false));
    assert_eq!(answer.query, "x");
}
