use browsy_cli::content_source::ContentSource;
use browsy_cli::querys::{Query, QueryResultPair, QueryStore, Timestamp};

#[test]
fn test_create_filled_query() {
    let time = Timestamp::new(1_700_000_000_000);

    let have = Query::new(ContentSource::docs(), "Macro Generics", time);
    let want = Query {
        source: ContentSource::docs(),
        query: "Macro Generics".to_string(),
        date: time,
    };

    assert_eq!(have, want)
}

#[test]
fn test_query_default_values() {
    let temp = QueryStore::new();
    assert!(
        temp.queries_for(ContentSource::docs()).is_empty()
            && temp.queries_for(ContentSource::crates()).is_empty()
            && temp.queries_for(ContentSource::lib()).is_empty()
    )
}

#[test]
fn test_add_new_query() {
    let temp_date = Timestamp::new(1_700_000_000_000);

    let mut query_store = QueryStore::new();
    let q = Query::new(ContentSource::default(), "Generics", temp_date);
    let q1 = Query::new(ContentSource::lib(), "Generics II", temp_date);
    let q2 = Query::new(ContentSource::crates(), "Generics III", temp_date);

    query_store.add_new_query(q.clone(), String::default());
    query_store.add_new_query(q1.clone(), String::default());
    query_store.add_new_query(q2.clone(), String::default());

    // The given key always exists
    let exists = query_store.queries_for(ContentSource::docs());
    assert!(exists.contains(&q));
    let exists1 = query_store.queries_for(ContentSource::lib());
    assert!(exists1.contains(&q1));
    let exists2 = query_store.queries_for(ContentSource::crates());
    assert!(exists2.contains(&q2))
}

#[test]
fn fresh_store_has_no_last_search() {
    let store = QueryStore::new();
    assert!(store.last_search().is_none());
    assert!(store.last_search_query_source().is_none());
    assert!(store.last_search_content().is_none());
}

#[test]
fn record_sets_last_and_appends_to_own_source_only() {
    let mut store = QueryStore::new();
    let date = Timestamp::new(42);
    let q = Query::new(ContentSource::lib(), "generics", date);
    store.add_new_query(q.clone(), "body text".to_string());

    assert_eq!(store.last_search_query_source(), Some(q.clone()));
    assert_eq!(store.last_search_content(), Some("body text".to_string()));
    assert_eq!(
        store.last_search(),
        Some(QueryResultPair::new(q.clone(), "body text".to_string()))
    );

    let lib_history = store.queries_for(ContentSource::lib());
    assert_eq!(lib_history.last(), Some(&q));
    assert!(store.queries_for(ContentSource::docs()).is_empty());
    assert!(store.queries_for(ContentSource::crates()).is_empty());
}

#[test]
fn record_overwrites_last_and_keeps_order() {
    let mut store = QueryStore::new();
    let date = Timestamp::new(7);
    let first = Query::new(ContentSource::docs(), "one", date);
    let second = Query::new(ContentSource::docs(), "two", date);
    store.add_new_query(first.clone(), "r1".to_string());
    store.add_new_query(second.clone(), "r2".to_string());

    assert_eq!(store.last_search_query_source(), Some(second.clone()));
    assert_eq!(store.last_search_content(), Some("r2".to_string()));
    assert_eq!(
        store.queries_for(ContentSource::docs()).as_slice(),
        &[first, second]
    );
}

#[test]
fn query_accessors_return_fields() {
    let date = Timestamp::new(9);
    let q = Query::new(ContentSource::crates(), "tokio", date);
    assert_eq!(q.query(), "tokio");
    assert_eq!(q.date(), date);
    assert_eq!(q.target(), &ContentSource::Crates);
}

#[test]
fn result_pair_accessors() {
    let date = Timestamp::new(11);
    let q = Query::new(ContentSource::docs(), "serde", date);
    let pair = QueryResultPair::new(q.clone(), "content".to_string());
    assert_eq!(pair.get_query(), q);
    assert_eq!(pair.get_content(), "content".to_string());
}
