use schemasync::error::PullError;
use schemasync::gh::{Gh, RawTreeEntry};
use schemasync::pull::{saved_message, select_schema};
use schemasync::store::Store;
use schemasync::text::basename;
use schemasync::tree::Tree;

fn raw(path: &str, kind: &str) -> RawTreeEntry {
    RawTreeEntry { path: path.to_string(), kind: kind.to_string() }
}

#[test]
fn missing_token_is_a_config_error() {
    assert!(matches!(Gh::from_token(None), Err(PullError::Config(_))));
    assert!(Gh::from_token(Some("token".to_string())).is_ok());
}

#[test]
fn cancelling_the_prompt_reports_no_selection() {
    let paths = vec!["a/schema.json".to_string()];
    let r = select_schema(&paths, None);
    assert!(matches!(r, Err(PullError::NoSelection)));
    assert_eq!(PullError::NoSelection.message(), "No schema selected");
}

#[test]
fn a_choice_resolves_to_its_candidate() {
    let paths = vec!["a/schema.json".to_string(), "b/schema.json".to_string()];
    assert_eq!(select_schema(&paths, Some(1)), Ok("b/schema.json".to_string()));
}

#[test]
fn pull_of_octo_widgets_end_to_end() {
    let gh = Gh::from_token(Some("token".to_string())).unwrap();
    let repo = gh
        .into_repo("octo", "widgets", vec![
            raw("a/schema.json", "blob"),
            raw("a/other.json", "blob"),
            raw("b", "tree"),
        ])
        .unwrap();

    let candidates = repo.find_schemas();
    assert_eq!(candidates, vec!["a/schema.json".to_string()]);

    let selected = select_schema(&candidates, Some(0)).unwrap();
    assert_eq!(selected, "a/schema.json");

    let text = "{ \"type\": \"object\" }";
    let encoded = base64::Engine::encode(&base64::engine::general_purpose::STANDARD, text);
    let content = repo.decode_content(&encoded, &"base64".to_string()).unwrap();
    assert_eq!(content, text);

    let name = basename(&selected);
    assert_eq!(name, "schema.json");
    assert_eq!(
        Store::schema_file_path("/home/u", "octo", "widgets", &name),
        "/home/u/.schemastore/octo/widgets/schema.json",
    );
    assert_eq!(
        saved_message("octo", "widgets", &name),
        "Schema saved to ~/.schemastore/octo/widgets/schema.json",
    );
}

#[test]
fn a_tree_without_candidates_ends_with_no_selection() {
    let gh = Gh::new("token".to_string());
    let repo = gh
        .into_repo("octo", "widgets", vec![raw("a/other.json", "blob"), raw("b", "tree")])
        .unwrap();
    let candidates = repo.find_schemas();
    assert!(candidates.is_empty());
    let r = select_schema(&candidates, None);
    assert!(matches!(r, Err(PullError::NoSelection)));
}
