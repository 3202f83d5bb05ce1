use newsapi_rs::model::{
    default_page, default_page_size, ArticleSortBy, Country, Language, NewsCategory,
    SearchInOption, CONFLICTING_FILTERS_MESSAGE,
};
use newsapi_rs::{GetEverythingRequest, GetSourcesRequest, GetTopHeadlinesRequest};

#[test]
fn sources_with_country_or_category_conflict() {
    for (country, category) in [
        (Some(Country::US), None),
        (None, Some(NewsCategory::Health)),
        (Some(Country::FR), Some(NewsCategory::Sports)),
    ] {
        let mut b = GetTopHeadlinesRequest::builder().sources("abc".to_string());
        if let Some(c) = country {
            b = b.country(c);
        }
        if let Some(c) = category {
            b = b.category(c);
        }
        assert_eq!(b.build().unwrap_err(), CONFLICTING_FILTERS_MESSAGE);
    }
    assert!(GetTopHeadlinesRequest::builder().sources("abc".to_string()).build().is_ok());
    assert!(GetTopHeadlinesRequest::builder()
        .country(Country::DE)
        .category(NewsCategory::General)
        .build()
        .is_ok());
}

#[test]
fn builders_start_from_defaults() {
    assert_eq!(default_page_size(), 1);
    assert_eq!(default_page(), 1);
    let r = GetTopHeadlinesRequest::builder().build().unwrap();
    assert_eq!(*r.get_page_size(), 1);
    assert_eq!(*r.get_page(), 1);
    assert!(r.get_search_term().is_empty());
    assert!(r.get_country().is_none() && r.get_category().is_none() && r.get_sources().is_none());

    let e = GetEverythingRequest::builder().build();
    assert_eq!(*e.get_page_size(), 1);
    assert!(e.get_search_in().is_empty());
    assert!(e.get_sort_by().is_none());

    let s = GetSourcesRequest::builder().build();
    assert!(s.get_category().is_none() && s.get_language().is_none());
}

#[test]
fn everything_builder_keeps_every_field() {
    let e = GetEverythingRequest::builder()
        .search_term("rust".to_string())
        .search_in(vec![SearchInOption::Title, SearchInOption::Content])
        .sources("bbc-news".to_string())
        .domains("bbc.co.uk".to_string())
        .exclude_domains("example.com".to_string())
        .language(Language::DE)
        .sort_by(ArticleSortBy::PublishedAt)
        .page_size(50)
        .page(2)
        .build();
    assert_eq!(e.get_search_term(), "rust");
    assert_eq!(e.get_search_in(), &vec![SearchInOption::Title, SearchInOption::Content]);
    assert_eq!(e.get_sources().as_deref(), Some("bbc-news"));
    assert_eq!(e.get_domains().as_deref(), Some("bbc.co.uk"));
    assert_eq!(e.get_exclude_domains().as_deref(), Some("example.com"));
    assert_eq!(*e.get_language(), Some(Language::DE));
    assert_eq!(e.get_sort_by().as_deref(), Some("publishedAt"));
    assert_eq!(*e.get_page_size(), 50);
    assert_eq!(*e.get_page(), 2);
}

#[test]
fn wire_names_round_trip() {
    assert_eq!(NewsCategory::Technology.as_str(), "technology");
    assert_eq!(Country::US.as_str(), "us");
    assert_eq!(Language::ZH.as_str(), "zh");
    assert_eq!(ArticleSortBy::Relevancy.as_str(), "relevancy");
    assert_eq!(SearchInOption::Description.as_str(), "description");
    for c in [Country::AE, Country::NO, Country::ZA, Country::IN, Country::TW] {
        assert_eq!(Country::from_wire(c.as_str()), Some(c));
    }
    for l in [Language::AR, Language::NO, Language::UD, Language::SV] {
        assert_eq!(Language::from_wire(l.as_str()), Some(l));
    }
    for c in [NewsCategory::Business, NewsCategory::Entertainment, NewsCategory::Sports] {
        assert_eq!(NewsCategory::from_wire(c.as_str()), Some(c));
    }
    assert_eq!(ArticleSortBy::from_wire("popularity"), Some(ArticleSortBy::Popularity));
    assert_eq!(Country::from_wire("US"), None);
    assert_eq!(Country::from_wire("xx"), None);
    assert_eq!(Language::from_wire(""), None);
}
