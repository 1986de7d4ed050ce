use labrinth::search::indexing::{
    batch_ranges, default_displayed_attributes, default_faceting_attributes, default_searchable_attributes, default_settings,
    filtered_ranking_rules, new_index_fields, settings_differ, FETCH_PROJECT_SIZE, MEILISEARCH_CHUNK_SIZE,
};
use labrinth::util::text_sort::sorted_strings;

#[test]
fn batches_cover_in_order() {
    assert_eq!(batch_ranges(0, 3), vec![]);
    assert_eq!(batch_ranges(7, 3), vec![(0, 3), (3, 6), (6, 7)]);
    assert_eq!(batch_ranges(6, 3), vec![(0, 3), (3, 6)]);
    assert_eq!(batch_ranges(2, 5), vec![(0, 2)]);
    assert_eq!(batch_ranges(12000, FETCH_PROJECT_SIZE), vec![(0, 5000), (5000, 10000), (10000, 12000)]);
    assert_eq!(batch_ranges(5000, MEILISEARCH_CHUNK_SIZE), vec![(0, 2500), (2500, 5000)]);
}

#[test]
fn only_unknown_fields_are_added() {
    let filterable = vec!["categories".to_string(), "license".to_string()];
    let additional = vec!["license".to_string(), "game_versions".to_string(), "mrpack_loaders".to_string()];
    assert_eq!(new_index_fields(&filterable, &additional), vec!["game_versions".to_string(), "mrpack_loaders".to_string()]);
    assert!(new_index_fields(&filterable, &filterable).is_empty());
}

#[test]
fn default_index_settings() {
    let s = default_settings(None);
    assert_eq!(s.distinct_attribute.as_deref(), Some("project_id"));
    assert_eq!(s.sortable_attributes, Some(vec![
        "date_created".to_string(), "date_modified".to_string(), "downloads".to_string(), "follows".to_string(),
    ]));
    assert_eq!(s.searchable_attributes, Some(default_searchable_attributes()));
    let displayed = s.displayed_attributes.clone().unwrap();
    assert_eq!(displayed.len(), default_displayed_attributes().len());
    let mut expected = default_displayed_attributes();
    expected.sort();
    assert_eq!(displayed, expected);
    let mut facets = default_faceting_attributes();
    facets.sort();
    assert_eq!(s.filterable_attributes, Some(facets));
    assert_eq!(s.max_total_hits, Some(2147483647));
    assert!(s.ranking_rules.is_none() && s.stop_words.is_none());
    let filtered = default_settings(Some(filtered_ranking_rules()));
    assert_eq!(filtered.ranking_rules.as_ref().map(|r| r[0].as_str()), Some("sort"));
    assert_eq!(sorted_strings(&vec!["b".to_string(), "B".to_string(), "a".to_string(), "b".to_string()]),
        vec!["B".to_string(), "a".to_string(), "b".to_string(), "b".to_string()]);
}

#[test]
fn index_settings_changes() {
    let wanted = default_settings(None);
    // An index that holds the same lists in another order needs no update.
    let mut old = default_settings(None);
    old.displayed_attributes = Some(default_displayed_attributes());
    old.ranking_rules = Some(vec!["words".to_string()]);
    old.stop_words = Some(vec!["the".to_string()]);
    assert!(!settings_differ(&old, &wanted));
    // A missing sortable field, another distinct field, or another limit does.
    let mut fewer = default_settings(None);
    fewer.sortable_attributes = Some(vec!["downloads".to_string()]);
    assert!(settings_differ(&fewer, &wanted));
    let mut distinct = default_settings(None);
    distinct.distinct_attribute = Some("version_id".to_string());
    assert!(settings_differ(&distinct, &wanted));
    let mut hits = default_settings(None);
    hits.max_total_hits = Some(1000);
    assert!(settings_differ(&hits, &wanted));
    // Searchable fields keep their order: another order is a change.
    let mut reordered = default_settings(None);
    reordered.searchable_attributes = Some(vec!["slug".to_string(), "name".to_string(), "summary".to_string(), "author".to_string()]);
    assert!(settings_differ(&reordered, &wanted));
    // The filtered index wants its own ranking rules.
    let filtered = default_settings(Some(filtered_ranking_rules()));
    assert!(settings_differ(&wanted, &filtered));
}

#[test]
fn default_settings_are_not_set_twice() {
    assert!(!settings_differ(&default_settings(None), &default_settings(None)));
    let filtered = default_settings(Some(filtered_ranking_rules()));
    assert!(!settings_differ(&filtered, &default_settings(Some(filtered_ranking_rules()))));
}
