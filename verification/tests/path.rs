use control_plane::utils::path::{
    check_path_text, sanitize_path_string, validate_data_path, validate_path, Located,
};

#[test]
fn test_path_traversal_rejected() {
    let result = validate_path("../etc/passwd", None, Located::Unresolved);
    assert!(result.is_err());
    assert!(result.unwrap_err().contains("Path traversal"));
}

#[test]
fn test_null_byte_rejected() {
    let result = validate_path("foo\0bar", None, Located::Unresolved);
    assert!(result.is_err());
    assert!(result.unwrap_err().contains("null bytes"));
}

#[test]
fn null_byte_comes_before_traversal() {
    assert_eq!(
        validate_path("..\0", None, Located::Unresolved),
        Err("Path contains null bytes".to_string())
    );
    assert_eq!(
        check_path_text("a/../b"),
        Err("Path traversal detected (contains '..')".to_string())
    );
    assert_eq!(check_path_text("a/./b.c"), Ok(()));
    assert_eq!(check_path_text("."), Ok(()));
    assert_eq!(check_path_text(""), Ok(()));
    assert_eq!(check_path_text(".."), Err("Path traversal detected (contains '..')".to_string()));
}

#[test]
fn path_without_base_is_resolved_where_it_exists() {
    assert_eq!(
        validate_path("data/x.txt", None, Located::Existing(Ok("/srv/data/x.txt".to_string()))),
        Ok("/srv/data/x.txt".to_string())
    );
    assert_eq!(
        validate_path("data/x.txt", None, Located::Existing(Err("denied".to_string()))),
        Err("Failed to canonicalize path: denied".to_string())
    );
    assert_eq!(
        validate_path("data/x.txt", None, Located::Unresolved),
        Ok("data/x.txt".to_string())
    );
}

#[test]
fn path_within_base_passes() {
    assert_eq!(
        validate_path(
            "test.txt",
            Some(Ok("/tmp/base".to_string())),
            Located::Existing(Ok("/tmp/base/test.txt".to_string()))
        ),
        Ok("/tmp/base/test.txt".to_string())
    );
    assert_eq!(
        validate_data_path(
            "new.txt",
            Ok("/tmp/base".to_string()),
            Located::InParent { parent: Ok("/tmp/base".to_string()), file_name: Some("new.txt".to_string()) }
        ),
        Ok("/tmp/base/new.txt".to_string())
    );
}

#[test]
fn path_outside_base_is_rejected() {
    let result = validate_path(
        "outside.txt",
        Some(Ok("/tmp/t/allowed".to_string())),
        Located::Existing(Ok("/tmp/t/outside.txt".to_string())),
    );
    assert_eq!(
        result,
        Err("Path escapes allowed directory: \"/tmp/t/outside.txt\" is not within \"/tmp/t/allowed\"".to_string())
    );
    let sibling = validate_path(
        "x",
        Some(Ok("/tmp/base".to_string())),
        Located::Existing(Ok("/tmp/basement/x".to_string())),
    );
    assert!(sibling.unwrap_err().contains("escapes allowed directory"));
}

#[test]
fn faults_of_resolution() {
    assert_eq!(
        validate_path("x", Some(Err("no such dir".to_string())), Located::Unresolved),
        Err("Failed to canonicalize base path: no such dir".to_string())
    );
    assert_eq!(
        validate_path(
            "x",
            Some(Ok("/b".to_string())),
            Located::InParent { parent: Err("gone".to_string()), file_name: Some("x".to_string()) }
        ),
        Err("Failed to canonicalize parent path: gone".to_string())
    );
    assert_eq!(
        validate_path(
            "x",
            Some(Ok("/b".to_string())),
            Located::InParent { parent: Ok("/b".to_string()), file_name: None }
        ),
        Err("Path has no filename component".to_string())
    );
}

#[test]
fn sanitize_checks_in_order() {
    assert_eq!(sanitize_path_string(""), Err("Path cannot be empty".to_string()));
    assert_eq!(sanitize_path_string("a\0"), Err("Path contains null bytes".to_string()));
    assert_eq!(
        sanitize_path_string("a/../b"),
        Err("Path traversal detected (contains '..')".to_string())
    );
    assert_eq!(sanitize_path_string("/abs/path"), Ok("/abs/path".to_string()));
    assert_eq!(sanitize_path_string("C:\\dir\\f"), Ok("C:\\dir\\f".to_string()));
    assert_eq!(sanitize_path_string("rel/f.txt"), Ok("rel/f.txt".to_string()));
}

#[test]
fn without_a_base_the_parent_is_not_looked_at() {
    assert_eq!(
        validate_path(
            "new/file.txt",
            None,
            Located::InParent { parent: Ok("/srv/new".to_string()), file_name: Some("file.txt".to_string()) }
        ),
        Ok("new/file.txt".to_string())
    );
    assert_eq!(
        validate_path(
            "new/",
            None,
            Located::InParent { parent: Ok("/srv".to_string()), file_name: None }
        ),
        Ok("new/".to_string())
    );
    assert_eq!(
        validate_path(
            "new/x",
            None,
            Located::InParent { parent: Err("denied".to_string()), file_name: Some("x".to_string()) }
        ),
        Ok("new/x".to_string())
    );
}

#[test]
fn escape_message_quotes_both_paths() {
    assert_eq!(
        validate_path(
            "x",
            Some(Ok("/b \"q\"".to_string())),
            Located::Existing(Ok("/a\\c".to_string()))
        ),
        Err("Path escapes allowed directory: \"/a\\\\c\" is not within \"/b \\\"q\\\"\"".to_string())
    );
}
