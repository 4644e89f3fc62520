use meilisearch_sdk::index_config::{
    classify_fields, extract_all_attr_values, get_index_config_implementation, validate_punct,
    AttrToken, AttributeLists, FieldAttr, FieldDescription, Seen,
};

fn ident(name: &str) -> AttrToken {
    AttrToken::Ident(name.to_string())
}

fn comma() -> AttrToken {
    AttrToken::Punct { ch: ',', alone: true }
}

/// `#[index_config(a, b, ..)]`
fn index_config(entries: &[&str]) -> FieldAttr {
    let mut tokens = Vec::new();
    for (i, entry) in entries.iter().enumerate() {
        if i > 0 {
            tokens.push(comma());
        }
        tokens.push(ident(entry));
    }
    FieldAttr::List { path: "index_config".to_string(), tokens }
}

fn field(name: &str, attrs: Vec<FieldAttr>) -> FieldDescription {
    FieldDescription { name: name.to_string(), attrs }
}

fn movie_clips() -> Vec<FieldDescription> {
    vec![
        field("movie_id", vec![index_config(&["primary_key"])]),
        field("owner", vec![index_config(&["distinct"])]),
        field("title", vec![index_config(&["displayed", "searchable"])]),
        field("description", vec![index_config(&["displayed"])]),
        field("release_date", vec![index_config(&["filterable", "sortable", "displayed"])]),
        field("genres", vec![index_config(&["filterable", "displayed"])]),
    ]
}

fn strings(items: &[&str]) -> Option<Vec<String>> {
    Some(items.iter().map(|s| s.to_string()).collect())
}

#[test]
fn settings_follow_the_annotations() {
    let movie = get_index_config_implementation("MovieClips", &movie_clips()).unwrap();
    assert_eq!(movie.index_name, "movie_clips");
    assert_eq!(movie.primary_key, Some("movie_id".to_string()));
    assert_eq!(movie.settings.searchable_attributes, strings(&["title"]));
    assert_eq!(
        movie.settings.displayed_attributes,
        strings(&["title", "description", "release_date", "genres"])
    );
    assert_eq!(movie.settings.filterable_attributes, strings(&["release_date", "genres"]));
    assert_eq!(movie.settings.sortable_attributes, strings(&["release_date"]));
    assert_eq!(movie.settings.distinct_attribute, Some("owner".to_string()));
    assert!(movie.settings.stop_words.is_none());
    assert!(movie.settings.synonyms.is_none());
    assert!(movie.settings.ranking_rules.is_none());
    assert!(movie.settings.pagination.is_none());
    assert!(movie.settings.faceting.is_none());
}

#[test]
fn record_without_annotations() {
    let video =
        get_index_config_implementation("VideoClips", &vec![field("video_id", Vec::new())])
            .unwrap();
    assert_eq!(video.index_name, "video_clips");
    assert_eq!(video.primary_key, None);
    assert_eq!(video.settings.searchable_attributes, strings(&[]));
    assert_eq!(video.settings.displayed_attributes, strings(&[]));
    assert_eq!(video.settings.filterable_attributes, strings(&[]));
    assert_eq!(video.settings.sortable_attributes, strings(&[]));
    assert_eq!(video.settings.distinct_attribute, None);
}

#[test]
fn index_is_named_after_the_type_in_snake_case() {
    for (ident, name) in [("Movie", "movie"), ("MovieClips", "movie_clips"), ("HTTPRequest", "http_request")] {
        let description = get_index_config_implementation(ident, &Vec::new()).unwrap();
        assert_eq!(description.index_name, name);
    }
}

#[test]
fn only_a_lone_comma_separates_entries() {
    assert_eq!(validate_punct(',', true), Ok(()));
    assert_eq!(validate_punct(',', false), Err("`,` expected".to_string()));
    assert_eq!(validate_punct(';', true), Err("`,` expected".to_string()));
    let attrs = vec![FieldAttr::List {
        path: "index_config".to_string(),
        tokens: vec![ident("displayed"), AttrToken::Punct { ch: ';', alone: true }, ident("sortable")],
    }];
    let mut seen = Seen { primary_key: false, distinct: false };
    assert_eq!(extract_all_attr_values(&attrs, &mut seen), Err("`,` expected".to_string()));
}

#[test]
fn entries_are_collected_in_order() {
    let attrs = vec![
        FieldAttr::Other,
        FieldAttr::List { path: "serde".to_string(), tokens: vec![ident("rename")] },
        index_config(&["sortable", "primary_key"]),
        index_config(&["displayed"]),
    ];
    let mut seen = Seen { primary_key: false, distinct: false };
    assert_eq!(
        extract_all_attr_values(&attrs, &mut seen),
        Ok(vec!["sortable".to_string(), "primary_key".to_string(), "displayed".to_string()])
    );
    assert_eq!(seen, Seen { primary_key: true, distinct: false });
    let mut seen = Seen { primary_key: false, distinct: false };
    assert_eq!(extract_all_attr_values(&Vec::new(), &mut seen), Ok(Vec::new()));
    assert_eq!(seen, Seen { primary_key: false, distinct: false });
}

#[test]
fn second_primary_key_is_refused() {
    let fields = vec![
        field("a", vec![index_config(&["primary_key"])]),
        field("b", vec![index_config(&["displayed", "primary_key"])]),
    ];
    assert_eq!(classify_fields(&fields).unwrap_err(), "`primary_key` already exists");
    let fields = vec![field("a", vec![index_config(&["primary_key", "primary_key"])])];
    assert_eq!(
        get_index_config_implementation("A", &fields).unwrap_err(),
        "`primary_key` already exists"
    );
}

#[test]
fn second_distinct_is_refused() {
    let fields = vec![
        field("a", vec![index_config(&["distinct"])]),
        field("b", vec![index_config(&["distinct"])]),
    ];
    assert_eq!(classify_fields(&fields).unwrap_err(), "`distinct` already exists");
}

#[test]
fn entry_given_twice_on_a_field_is_refused() {
    let fields = vec![field("a", vec![index_config(&["displayed"]), index_config(&["displayed"])])];
    assert_eq!(
        classify_fields(&fields).unwrap_err(),
        "`displayed` already exists for this field"
    );
    let fields = vec![
        field("a", vec![index_config(&["displayed"])]),
        field("b", vec![index_config(&["displayed"])]),
    ];
    assert!(classify_fields(&fields).is_ok());
}

#[test]
fn unknown_entry_is_refused() {
    let fields = vec![field("a", vec![index_config(&["indexed"])])];
    assert_eq!(
        classify_fields(&fields).unwrap_err(),
        "Property `indexed` does not exist for type `index_config`"
    );
}

#[test]
fn other_tokens_are_refused() {
    let attrs = vec![FieldAttr::List {
        path: "index_config".to_string(),
        tokens: vec![AttrToken::Other],
    }];
    let mut seen = Seen { primary_key: false, distinct: false };
    assert_eq!(extract_all_attr_values(&attrs, &mut seen), Err("Invalid parsing".to_string()));
}

#[test]
fn malformed_annotation_reports_punctuation_first() {
    let malformed = |tokens| FieldAttr::Malformed { tokens, complaint: "expected literal".to_string() };
    let mut seen = Seen { primary_key: false, distinct: false };
    assert_eq!(
        extract_all_attr_values(&vec![malformed(vec![ident("displayed"), comma()])], &mut seen),
        Err("expected literal".to_string())
    );
    assert_eq!(
        extract_all_attr_values(
            &vec![malformed(vec![ident("displayed"), AttrToken::Punct { ch: '=', alone: true }])],
            &mut seen
        ),
        Err("`,` expected".to_string())
    );
}

#[test]
fn later_claim_replaces_nothing_but_is_refused() {
    let mut lists = AttributeLists::new();
    lists.place("displayed", "title");
    lists.place("displayed", "genres");
    lists.place("primary_key", "id");
    lists.place("distinct", "owner");
    lists.place("sortable", "date");
    lists.place("filterable", "genres");
    lists.place("searchable", "title");
    lists.place("unknown", "x");
    assert_eq!(lists.displayed, vec!["title", "genres"]);
    assert_eq!(lists.primary_key, "id");
    assert_eq!(lists.distinct, "owner");
    assert_eq!(lists.sortable, vec!["date"]);
    assert_eq!(lists.filterable, vec!["genres"]);
    assert_eq!(lists.searchable, vec!["title"]);
    lists.place_all(&vec!["displayed".to_string(), "sortable".to_string()], "year");
    assert_eq!(lists.displayed, vec!["title", "genres", "year"]);
    assert_eq!(lists.sortable, vec!["date", "year"]);
}
