use browsy_cli::content_source::ContentSource;

#[test]
fn test_from_trait_impl() {
    let have = vec![
        ContentSource::from("docs"),
        ContentSource::from("crates"),
        ContentSource::from("lib"),
    ];

    let want = vec![
        ContentSource::docs(),
        ContentSource::crates(),
        ContentSource::lib(),
    ];

    assert_eq!(want, have)
}

#[test]
fn test_parse_query() {
    let want = "Some+generic+Url+encoding".to_string();
    let have = ContentSource::parse_query("Some+generic+Url+encoding");

    assert_eq!(want, have)
}

#[test]
fn test_parse_docs_custom_query() {
    let query = "Proc Macros";
    let docs_page = 2;
    let number_results = 4;

    assert_eq!(
        ContentSource::parse_docs_custom_query(query, number_results, docs_page),
        base64::encode("?q=Proc+Macros&per_page=4&page=2")
            .trim_end_matches('=')
            .to_string()
    )
}

#[test]
fn test_generate_query_string_docs() {
    let query = "Super cool";
    let source = ContentSource::from("docs");

    let built_query = source.generate_query_string(query, None);
    let want = "https://docs.rs/releases/search?query=Super+cool".to_string();
    assert_eq!(built_query, want);
}

#[test]
fn test_generate_query_string_docs_custom() {
    let number_results = 30;
    let docs_page = 2;
    let query = "generics";
    let source = ContentSource::from("docs");

    let built_query = source.generate_query_string(query, Some((number_results, docs_page)));
    let want = "https://docs.rs/releases/search?paginate=P3E9Z2VuZXJpY3MmcGVyX3BhZ2U9MzAmcGFnZT0y"
        .to_string();
    assert_eq!(built_query, want);
}

#[test]
fn generate_query_string_lib() {
    let source = ContentSource::from("lib");
    let built_query = source.generate_query_string("tokio runtime", None);
    assert_eq!(built_query, "https://lib.rs/search?q=tokio+runtime".to_string());
}

#[test]
fn generate_query_string_crates() {
    let source = ContentSource::from("crates");
    let built_query = source.generate_query_string("serde json", None);
    assert_eq!(built_query, "https://crates.io/search?q=serde+json".to_string());
}

#[test]
fn unknown_source_defaults_to_docs() {
    assert_eq!(ContentSource::from("nonsense"), ContentSource::docs());
    assert_eq!(ContentSource::from(""), ContentSource::docs());
    assert_eq!(ContentSource::from("Docs"), ContentSource::docs());
}

#[test]
fn resolve_is_repeatable() {
    let first = ContentSource::resolve("docs");
    let second = ContentSource::resolve("docs");
    assert_eq!(first, ContentSource::Docs);
    assert_eq!(first, second);
}

#[test]
fn query_urls_hold_no_spaces() {
    let query = "a query with  many   spaces";
    for source in [
        ContentSource::docs(),
        ContentSource::lib(),
        ContentSource::crates(),
    ] {
        let plain = source.generate_query_string(query, None);
        assert!(!plain.contains(' '));
        let custom = source.generate_query_string(query, Some((7, 3)));
        assert!(!custom.contains(' '));
    }
}

#[test]
fn paginate_parameter_round_trips() {
    let url = ContentSource::docs().generate_query_string("Proc Macros", Some((4, 2)));
    let prefix = "https://docs.rs/releases/search?paginate=";
    assert!(url.starts_with(prefix));
    let mut param = url[prefix.len()..].to_string();
    while param.len() % 4 != 0 {
        param.push('=');
    }
    let decoded = base64::decode(&param).unwrap();
    assert_eq!(
        String::from_utf8(decoded).unwrap(),
        "?q=Proc+Macros&per_page=4&page=2".to_string()
    );
}

#[test]
fn pagination_accepts_negative_values() {
    assert_eq!(
        ContentSource::parse_docs_custom_query("x", -1, -20),
        base64::encode("?q=x&per_page=-1&page=-20")
            .trim_end_matches('=')
            .to_string()
    );
}

#[test]
fn pagination_ignored_outside_docs() {
    let url = ContentSource::lib().generate_query_string("tokio runtime", Some((30, 2)));
    assert_eq!(url, "https://lib.rs/search?q=tokio+runtime".to_string());
    let url = ContentSource::crates().generate_query_string("tokio runtime", Some((30, 2)));
    assert_eq!(url, "https://crates.io/search?q=tokio+runtime".to_string());
}

#[test]
fn base_url_per_source() {
    assert_eq!(ContentSource::docs().base_url(), "https://docs.rs/".to_string());
    assert_eq!(ContentSource::lib().base_url(), "https://lib.rs/".to_string());
    assert_eq!(ContentSource::crates().base_url(), "https://crates.io/".to_string());
}

#[test]
fn default_source_is_docs() {
    assert_eq!(ContentSource::default(), ContentSource::Docs);
}
