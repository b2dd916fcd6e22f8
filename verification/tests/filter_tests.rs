use algolia::filter::AndFilter;
use algolia::filter::BooleanFilter;
use algolia::filter::CmpFilter;
use algolia::filter::CommonFilter;
use algolia::filter::EmptyFilter;
use algolia::filter::FacetFilter;
use algolia::filter::FilterOperator;
use algolia::filter::Filterable;
use algolia::filter::OrFilter;
use algolia::filter::RangeFilter;
use algolia::filter::ScoredFacetFilter;
use algolia::filter::TagFilter;

fn plain<T: algolia::filter::CommonFilterKind>(filter: T) -> CommonFilter<T> {
    CommonFilter {
        invert: false,
        filter,
    }
}

#[test]
fn facet_filter_renders() {
    let f = plain(FacetFilter {
        facet_name: "color".to_string(),
        value: "red".to_string(),
    });
    assert_eq!(f.render(), r#""color":"red""#);
}

#[test]
fn scored_facet_filter_renders() {
    let f = ScoredFacetFilter::new("brand".to_string(), "nike".to_string(), 42)
        .expect("a score of 42 is in range");
    assert_eq!(plain(f).render(), r#""brand":"nike"<score=42>"#);
}

#[test]
fn scored_facet_filter_rejects_negative_score() {
    assert!(ScoredFacetFilter::new("brand".to_string(), "nike".to_string(), -1).is_none());
    assert!(ScoredFacetFilter::new("brand".to_string(), "nike".to_string(), i64::MIN).is_none());
    assert!(ScoredFacetFilter::new("brand".to_string(), "nike".to_string(), i64::MAX).is_some());
    assert!(ScoredFacetFilter::new("brand".to_string(), "nike".to_string(), 0).is_some());
}

#[test]
fn and_of_or_group_and_inverted_tag_renders() {
    let or_group = OrFilter {
        filters: vec![
            plain(FacetFilter {
                facet_name: "a".to_string(),
                value: "1".to_string(),
            }),
            plain(FacetFilter {
                facet_name: "a".to_string(),
                value: "2".to_string(),
            }),
        ],
    };
    let not_tag = CommonFilter {
        invert: true,
        filter: TagFilter("x".to_string()),
    };
    let mut and = AndFilter::new();
    and.add(or_group);
    and.add(not_tag);
    assert_eq!(and.render(), r#""a":"1" OR "a":"2" AND NOT _tags:"x""#);
}

#[test]
fn boolean_filter_renders() {
    let t = plain(BooleanFilter {
        facet_name: "isEnabled".to_string(),
        value: true,
    });
    assert_eq!(t.render(), r#""isEnabled":true"#);
    let f = plain(BooleanFilter {
        facet_name: "isEnabled".to_string(),
        value: false,
    });
    assert_eq!(f.render(), r#""isEnabled":false"#);
}

#[test]
fn tag_filter_renders() {
    assert_eq!(plain(TagFilter("published".to_string())).render(), r#"_tags:"published""#);
}

#[test]
fn range_filter_renders() {
    let f = RangeFilter::new("price".to_string(), 10u8, 20u8);
    assert_eq!(plain(f).render(), r#""price": 10 TO 20"#);
    let negative = RangeFilter::new("delta".to_string(), -5i32, 5i32);
    assert_eq!(plain(negative).render(), r#""delta": -5 TO 5"#);
}

#[test]
fn cmp_filter_renders() {
    let f = CmpFilter::new("price".to_string(), FilterOperator::Le, 42u32);
    assert_eq!(plain(f).render(), r#""price" <= 42"#);
    let g = CmpFilter::new("offset".to_string(), FilterOperator::Ne, -7i64);
    assert_eq!(plain(g).render(), r#""offset" != -7"#);
}

#[test]
fn filter_operators_render() {
    assert_eq!(FilterOperator::Lt.as_str(), "<");
    assert_eq!(FilterOperator::Le.as_str(), "<=");
    assert_eq!(FilterOperator::Eq.as_str(), "=");
    assert_eq!(FilterOperator::Ne.as_str(), "!=");
    assert_eq!(FilterOperator::Ge.as_str(), ">=");
    assert_eq!(FilterOperator::Gt.as_str(), ">");
}

#[test]
fn string_leaves_are_escaped() {
    let f = plain(FacetFilter {
        facet_name: "msg".to_string(),
        value: "say \"hi\"\n".to_string(),
    });
    assert_eq!(f.render(), "\"msg\":\"say \\\"hi\\\"\\n\"");
    let tab_and_backslash = plain(TagFilter("a\\b\tc".to_string()));
    assert_eq!(tab_and_backslash.render(), "_tags:\"a\\\\b\\tc\"");
    let control = plain(TagFilter("\u{1}".to_string()));
    assert_eq!(control.render(), "_tags:\"\\u{1}\"");
}

#[test]
fn empty_composites_render_empty() {
    assert_eq!(EmptyFilter.render(), "");
    let empty_or: OrFilter<TagFilter> = OrFilter { filters: vec![] };
    assert_eq!(empty_or.render(), "");
    assert_eq!(AndFilter::new().render(), "");
}

#[test]
fn or_group_keeps_insertion_order() {
    let or_group = OrFilter {
        filters: vec![
            plain(TagFilter("b".to_string())),
            plain(TagFilter("a".to_string())),
        ],
    };
    assert_eq!(or_group.render(), r#"_tags:"b" OR _tags:"a""#);
}
