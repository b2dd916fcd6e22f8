use algolia::filter::CommonFilter;
use algolia::filter::EmptyFilter;
use algolia::filter::FacetFilter;
use algolia::filter::TagFilter;
use algolia::request::PartialUpdateQuery;
use algolia::request::SearchQuery;
use algolia::request::SetSettings;

#[test]
fn default_search_query_params() {
    let q: SearchQuery<TagFilter> = Default::default();
    assert_eq!(q.to_params(), "getRankingInfo=false");
}

#[test]
fn search_query_with_text_and_paging() {
    let q: SearchQuery<TagFilter> = SearchQuery {
        query: Some("red shoes"),
        page: Some(2),
        hits_per_page: Some(50),
        get_ranking_info: true,
        ..Default::default()
    };
    assert_eq!(q.to_params(), "query=red+shoes&page=2&hitsPerPage=50");
}

#[test]
fn search_query_omits_default_values() {
    let q: SearchQuery<TagFilter> = SearchQuery {
        query: Some(""),
        page: Some(0),
        hits_per_page: Some(20),
        get_ranking_info: true,
        pagination_limited_to: Some(0),
        ..Default::default()
    };
    assert_eq!(q.to_params(), "");
}

#[test]
fn search_query_encodes_filters() {
    let q: SearchQuery<TagFilter, CommonFilter<FacetFilter>> = SearchQuery {
        filters: Some(CommonFilter {
            invert: false,
            filter: FacetFilter {
                facet_name: "color".to_string(),
                value: "red".to_string(),
            },
        }),
        get_ranking_info: true,
        ..Default::default()
    };
    assert_eq!(q.to_params(), "filters=%22color%22%3A%22red%22");
}

#[test]
fn search_query_full_parameter_order() {
    let q: SearchQuery<TagFilter, EmptyFilter> = SearchQuery {
        query: Some("a"),
        page: Some(1),
        hits_per_page: Some(5),
        filters: Some(EmptyFilter),
        sum_or_filters_scores: true,
        pagination_limited_to: Some(100),
        ..Default::default()
    };
    assert_eq!(
        q.to_params(),
        "query=a&page=1&hitsPerPage=5&filters=&getRankingInfo=false&sumOrFiltersScores=true&paginationLimitedTo=100"
    );
}

#[test]
fn partial_update_query_serializes_only_when_set() {
    assert_eq!(PartialUpdateQuery::default().to_query(), "createIfNotExists=true");
    assert_eq!(
        PartialUpdateQuery {
            create_if_not_exists: false
        }
        .to_query(),
        ""
    );
}

#[test]
fn set_settings_default_changes_nothing() {
    let settings = SetSettings::default();
    assert!(settings.searchable_attributes.is_none());
    assert!(settings.attributes_for_faceting.is_none());
}
