use schemasync::error::PullError;
use schemasync::gh::{content_status_check, tree_status_check, Gh, GhRepo, RawTreeEntry};
use schemasync::tree::Tree;

fn raw(path: &str, kind: &str) -> RawTreeEntry {
    RawTreeEntry { path: path.to_string(), kind: kind.to_string() }
}

fn repo_of(entries: Vec<RawTreeEntry>) -> GhRepo {
    Gh::new("token".to_string())
        .into_repo("octo", "widgets", entries)
        .expect("every entry carries a known kind tag")
}

#[test]
fn filters_file_entries_by_suffix_in_order() {
    let repo = repo_of(vec![
        raw("a/schema.json", "blob"),
        raw("a/other.json", "blob"),
        raw("b", "tree"),
        raw("dir-named/schema.json", "tree"),
        raw("x/y/my.schema.json", "blob"),
        raw("schema.json", "blob"),
        raw("z/schema.json.bak", "blob"),
    ]);
    let found = repo.find_schemas();
    assert_eq!(found, vec![
        "a/schema.json".to_string(),
        "x/y/my.schema.json".to_string(),
        "schema.json".to_string(),
    ]);
}

#[test]
fn directory_entries_never_qualify() {
    let repo = repo_of(vec![raw("schema.json", "tree"), raw("a/schema.json", "tree")]);
    assert!(repo.find_schemas().is_empty());
}

#[test]
fn empty_tree_lists_no_candidates() {
    let repo = repo_of(vec![]);
    assert!(repo.find_schemas().is_empty());
}

#[test]
fn unknown_entry_kind_is_a_decode_error() {
    let r = Gh::new("token".to_string()).into_repo("o", "r", vec![raw("a", "commit")]);
    assert!(matches!(r, Err(PullError::Decode(_))));
}

#[test]
fn tree_url_has_the_documented_shape() {
    assert_eq!(
        Gh::tree_url("octo", "widgets", "main"),
        "https://api.github.com/repos/octo/widgets/git/trees/main?recursive=1",
    );
}

#[test]
fn content_url_has_the_documented_shape() {
    let repo = repo_of(vec![]);
    assert_eq!(
        repo.content_url("a/schema.json"),
        "https://api.github.com/repos/octo/widgets/contents/a/schema.json",
    );
}

#[test]
fn request_headers_carry_token_media_type_and_version() {
    let headers = Gh::new("secret".to_string()).request_headers();
    assert_eq!(headers, vec![
        ("Accept".to_string(), "application/vnd.github+json".to_string()),
        ("Authorization".to_string(), "Bearer secret".to_string()),
        ("X-GitHub-Api-Version".to_string(), "2022-11-28".to_string()),
    ]);
}

#[test]
fn non_success_tree_status_keeps_the_body() {
    let body = "{\"message\": \"Not Found\"}".to_string();
    match tree_status_check(404, &body) {
        Err(PullError::Api(m)) => {
            assert_eq!(m, "Failed to fetch repo tree: {\"message\": \"Not Found\"}");
            assert!(m.contains(&body));
        }
        other => panic!("expected an api error, got {:?}", other),
    }
}

#[test]
fn non_success_content_status_keeps_the_body() {
    let body = "bad token".to_string();
    match content_status_check(401, &body) {
        Err(PullError::Api(m)) => assert_eq!(m, "Failed to fetch schema file: bad token"),
        other => panic!("expected an api error, got {:?}", other),
    }
}

#[test]
fn success_statuses_pass_both_checks() {
    assert!(tree_status_check(200, &String::new()).is_ok());
    assert!(content_status_check(200, &String::new()).is_ok());
}
