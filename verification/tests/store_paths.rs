use schemasync::store::Store;
use schemasync::text::{basename, str_ends_with, strip_newlines};

#[test]
fn schema_file_path_joins_home_owner_repo_and_name() {
    assert_eq!(
        Store::schema_file_path("/home/u", "octo", "widgets", "schema.json"),
        "/home/u/.schemastore/octo/widgets/schema.json",
    );
}

#[test]
fn basename_takes_the_segment_after_the_last_slash() {
    assert_eq!(basename("a/b/schema.json"), "schema.json");
    assert_eq!(basename("schema.json"), "schema.json");
    assert_eq!(basename("a/"), "");
    assert_eq!(basename(""), "");
}

#[test]
fn strip_newlines_drops_only_line_breaks() {
    assert_eq!(strip_newlines("ab\ncd\r\nef\r"), "abcdef");
    assert_eq!(strip_newlines("\n\r"), "");
    assert_eq!(strip_newlines("plain"), "plain");
}

#[test]
fn suffix_check_matches_exact_tails() {
    assert!(str_ends_with("a/schema.json", "schema.json"));
    assert!(str_ends_with("schema.json", "schema.json"));
    assert!(!str_ends_with("schema.json.bak", "schema.json"));
    assert!(!str_ends_with("json", "schema.json"));
    assert!(str_ends_with("anything", ""));
}
