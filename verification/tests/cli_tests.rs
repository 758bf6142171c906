use browsy_cli::cli::CLI;

#[test]
fn cli_accessors_return_arguments() {
    let cli = CLI::new(
        "generics".to_string(),
        "docs".to_string(),
        true,
        30,
        2,
        false,
    );
    assert_eq!(cli.query(), "generics");
    assert_eq!(cli.source(), "docs");
    assert!(cli.custom());
    assert_eq!(cli.quantity(), 30);
    assert_eq!(cli.page_index(), 2);
    assert!(!cli.interactive());
}

#[test]
fn cli_clones_equal() {
    let cli = CLI::new(
        "a query".to_string(),
        "lib".to_string(),
        false,
        10,
        1,
        true,
    );
    let copy = cli.clone();
    assert_eq!(copy.query(), cli.query());
    assert_eq!(copy.source(), cli.source());
    assert_eq!(copy.custom(), cli.custom());
    assert_eq!(copy.quantity(), cli.quantity());
    assert_eq!(copy.page_index(), cli.page_index());
    assert_eq!(copy.interactive(), cli.interactive());
}
