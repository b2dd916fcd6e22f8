use algolia::model::attribute::Attribute;
use algolia::model::attribute::FacetAttribute;
use algolia::model::attribute::FacetModifier;
use algolia::model::attribute::SearchableAttributes;
use algolia::task::TaskId;
use algolia::task::TaskStatus;

#[test]
fn list_of_attributes() {
    let attributes = SearchableAttributes::build()
        .single(Attribute("a".to_owned()))
        .multi(vec![Attribute("b".to_owned()), Attribute("c".to_owned())])
        .single_unordered(Attribute("e".to_owned()))
        .multi_unordered(vec![Attribute("f".to_owned()), Attribute("g".to_owned())])
        .finish();
    assert_eq!(
        attributes.rendered_entries(),
        vec![
            "a".to_string(),
            "b,c".to_string(),
            "unordered(e)".to_string(),
            "unordered(f,g)".to_string(),
        ]
    );
    assert!(!attributes.is_empty());
    assert!(SearchableAttributes::build().finish().is_empty());
}

#[test]
fn facet_attributes() {
    let facets = vec![
        FacetAttribute::new(Attribute("a".to_owned())),
        FacetAttribute::filter_only(Attribute("b".to_owned())),
        FacetAttribute::searchable(Attribute("b".to_owned())),
    ];
    let rendered: Vec<String> = facets.iter().map(|f| f.render()).collect();
    assert_eq!(
        rendered,
        vec![
            "a".to_string(),
            "filterOnly(b)".to_string(),
            "searchable(b)".to_string(),
        ]
    );
    assert_eq!(FacetModifier::FilterOnly.as_str(), "filterOnly");
    assert_eq!(FacetModifier::Searchable.as_str(), "searchable");
    let with = FacetAttribute::with_modifier(
        Attribute("c".to_owned()),
        Some(FacetModifier::Searchable),
    );
    assert_eq!(with.render(), "searchable(c)");
    let bare = FacetAttribute::with_modifier(Attribute("c".to_owned()), None);
    assert_eq!(bare.render(), "c");
}

#[test]
fn task_status_completed() {
    assert!(TaskStatus::Published.completed());
    assert!(!TaskStatus::NotPublished.completed());
    assert_eq!(TaskId(7), TaskId(7));
}
