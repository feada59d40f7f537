use nix_shell_locked::error::Error;
use nix_shell_locked::lockfile::{nixpkgs_revision, nixpkgs_revision_in, read_nixpkgs_revision};

const PATH: &str = "/tmp/flake.lock";

fn missing() -> Result<String, Error> {
    Err(Error::LockfileFieldMissing(PATH.to_string()))
}

fn not_string() -> Result<String, Error> {
    Err(Error::LockfileFieldNotString(PATH.to_string()))
}

#[test]
fn revision_is_extracted_exactly() {
    let text = r#"{"nodes":{"nixpkgs":{"locked":{"rev":"abc123"}}}}"#;
    assert_eq!(nixpkgs_revision(PATH, text), Ok("abc123".to_string()));
}

#[test]
fn revision_is_not_trimmed_or_changed() {
    let text = r#"{"nodes":{"nixpkgs":{"locked":{"rev":"  AbC 123\n"}}}}"#;
    assert_eq!(nixpkgs_revision(PATH, text), Ok("  AbC 123\n".to_string()));
    let empty = r#"{"nodes":{"nixpkgs":{"locked":{"rev":""}}}}"#;
    assert_eq!(nixpkgs_revision(PATH, empty), Ok(String::new()));
}

#[test]
fn the_rest_of_the_document_is_of_no_account() {
    let text = r#"{
        "version": 7,
        "root": "root",
        "nodes": {
            "root": {"inputs": {"nixpkgs": "nixpkgs"}},
            "nixpkgs": {
                "locked": {"lastModified": 1, "narHash": "sha256-x", "rev": "0123abcd", "type": "github"}
            }
        },
        "unknown": [1, 2, {"a": null}]
    }"#;
    assert_eq!(nixpkgs_revision(PATH, text), Ok("0123abcd".to_string()));
}

#[test]
fn missing_leaf_is_field_missing() {
    let text = r#"{"nodes":{"nixpkgs":{"locked":{"narHash":"x"}}}}"#;
    assert_eq!(nixpkgs_revision(PATH, text), missing());
}

#[test]
fn missing_intermediate_key_is_field_missing() {
    assert_eq!(nixpkgs_revision(PATH, "{}"), missing());
    assert_eq!(nixpkgs_revision(PATH, r#"{"nodes":{}}"#), missing());
    assert_eq!(nixpkgs_revision(PATH, r#"{"nodes":{"nixpkgs":{}}}"#), missing());
    assert_eq!(
        nixpkgs_revision(PATH, r#"{"nodes":{"other":{"locked":{"rev":"abc"}}}}"#),
        missing()
    );
}

#[test]
fn intermediate_value_that_is_no_object_is_field_missing() {
    assert_eq!(nixpkgs_revision(PATH, r#"{"nodes":"nixpkgs"}"#), missing());
    assert_eq!(nixpkgs_revision(PATH, r#"{"nodes":[{"nixpkgs":1}]}"#), missing());
    assert_eq!(nixpkgs_revision(PATH, "[]"), missing());
    assert_eq!(nixpkgs_revision(PATH, "null"), missing());
    assert_eq!(nixpkgs_revision(PATH, "\"abc123\""), missing());
}

#[test]
fn number_at_the_leaf_is_not_a_string() {
    let text = r#"{"nodes":{"nixpkgs":{"locked":{"rev":42}}}}"#;
    assert_eq!(nixpkgs_revision(PATH, text), not_string());
}

#[test]
fn other_values_at_the_leaf_are_not_strings() {
    for leaf in ["null", "true", "{}", "{\"a\":\"b\"}", "[\"abc123\"]", "1.5"] {
        let text = format!(r#"{{"nodes":{{"nixpkgs":{{"locked":{{"rev":{}}}}}}}}}"#, leaf);
        assert_eq!(nixpkgs_revision(PATH, &text), not_string());
    }
}

#[test]
fn text_that_is_no_json_is_a_parse_error() {
    for text in ["", "{", "not json", r#"{"nodes":}"#, r#"{"a":1} trailing"#] {
        assert!(matches!(
            nixpkgs_revision(PATH, text),
            Err(Error::LockfileParseError(_))
        ));
    }
}

#[test]
fn lockfile_parse_error_carries_the_message_of_the_parser() {
    let error = serde_json::from_str::<serde_json::Value>("{").unwrap_err();
    assert_eq!(
        nixpkgs_revision(PATH, "{"),
        Err(Error::LockfileParseError(error.to_string()))
    );
}

#[test]
fn failures_name_the_lockfile_they_were_given() {
    assert_eq!(
        nixpkgs_revision("elsewhere/flake.lock", "{}"),
        Err(Error::LockfileFieldMissing("elsewhere/flake.lock".to_string()))
    );
}

#[test]
fn revision_in_a_document_built_by_hand() {
    let mut locked = serde_json::Map::new();
    locked.insert(
        "rev".to_string(),
        serde_json::Value::String("abc123".to_string()),
    );
    let mut nixpkgs = serde_json::Map::new();
    nixpkgs.insert("locked".to_string(), serde_json::Value::Object(locked));
    let mut nodes = serde_json::Map::new();
    nodes.insert("nixpkgs".to_string(), serde_json::Value::Object(nixpkgs));
    let mut root = serde_json::Map::new();
    root.insert("nodes".to_string(), serde_json::Value::Object(nodes));
    let document = serde_json::Value::Object(root);
    assert_eq!(nixpkgs_revision_in(PATH, &document), Ok("abc123".to_string()));
}

#[test]
fn revision_in_documents_without_it() {
    assert_eq!(nixpkgs_revision_in(PATH, &serde_json::Value::Null), missing());
    let mut locked = serde_json::Map::new();
    locked.insert("rev".to_string(), serde_json::Value::Bool(true));
    let mut nixpkgs = serde_json::Map::new();
    nixpkgs.insert("locked".to_string(), serde_json::Value::Object(locked));
    let mut nodes = serde_json::Map::new();
    nodes.insert("nixpkgs".to_string(), serde_json::Value::Object(nixpkgs));
    let mut root = serde_json::Map::new();
    root.insert("nodes".to_string(), serde_json::Value::Object(nodes));
    assert_eq!(
        nixpkgs_revision_in(PATH, &serde_json::Value::Object(root)),
        not_string()
    );
}

#[test]
fn lockfile_that_could_not_be_read_is_a_read_error() {
    assert_eq!(
        read_nixpkgs_revision(PATH, Err("No such file or directory (os error 2)".to_string())),
        Err(Error::LockfileReadError(
            "No such file or directory (os error 2)".to_string()
        ))
    );
}

#[test]
fn lockfile_that_was_read_is_searched() {
    let text = r#"{"nodes":{"nixpkgs":{"locked":{"rev":"abc123"}}}}"#.to_string();
    assert_eq!(read_nixpkgs_revision(PATH, Ok(text)), Ok("abc123".to_string()));
    assert_eq!(read_nixpkgs_revision(PATH, Ok("{}".to_string())), missing());
    assert_eq!(
        read_nixpkgs_revision(PATH, Ok(r#"{"nodes":{"nixpkgs":{"locked":{"rev":42}}}}"#.to_string())),
        not_string()
    );
    assert!(matches!(
        read_nixpkgs_revision(PATH, Ok("{".to_string())),
        Err(Error::LockfileParseError(_))
    ));
}
