use thumbstore::names::{
    decimal_text, derivative_name, derivative_path, history_path, history_staging_path,
    original_path, scoped_path, staging_path,
};

#[test]
fn decimal_text_writes_plain_digits() {
    assert_eq!(decimal_text(0), "0");
    assert_eq!(decimal_text(7), "7");
    assert_eq!(decimal_text(10), "10");
    assert_eq!(decimal_text(120), "120");
    assert_eq!(decimal_text(65535), "65535");
    assert_eq!(decimal_text(4294967295), "4294967295");
}

#[test]
fn derivative_name_holds_identity_and_size() {
    assert_eq!(derivative_name("abc", 120, 45), "abc-120x45");
    assert_eq!(derivative_name("", 1, 1), "-1x1");
}

#[test]
fn derivative_names_differ_where_the_keys_differ() {
    assert_ne!(derivative_name("a", 11, 1), derivative_name("a", 1, 11));
    assert_ne!(derivative_name("a-1x1", 2, 2), derivative_name("a", 1, 1));
    assert_ne!(derivative_name("a", 1, 12), derivative_name("a", 11, 2));
}

#[test]
fn paths_are_scoped_by_project() {
    assert_eq!(original_path("p1", "id"), "upload_files/p1/id.jpg");
    assert_eq!(derivative_path("p1", "id", 64, 48), "upload_thumbs/p1/id-64x48");
    assert_eq!(history_path("p1"), "stacks/p1.stack");
    assert_ne!(original_path("p1", "id"), original_path("p2", "id"));
}

#[test]
fn an_empty_project_has_no_level_of_its_own() {
    assert_eq!(original_path("", "id"), "upload_files/id.jpg");
    assert_eq!(derivative_path("", "id", 64, 48), "upload_thumbs/id-64x48");
    assert_eq!(scoped_path("d", "", "n"), "d/n");
    assert_eq!(scoped_path("d", "p", "n"), "d/p/n");
}

#[test]
fn staging_paths_lie_beside_the_targets() {
    assert_eq!(staging_path("t0"), "upload_thumbs/t0.jpg");
    assert_eq!(history_staging_path("t0"), "stacks/t0.tmp");
}

#[test]
fn paths_differ_across_projects_for_identities_without_a_slash() {
    assert_ne!(derivative_path("a", "b", 1, 1), derivative_path("", "b", 1, 1));
    assert_ne!(derivative_path("a", "b", 1, 1), derivative_path("b", "a", 1, 1));
    assert_ne!(original_path("ab", "c"), original_path("a", "bc"));
    assert_ne!(original_path("", "c"), original_path("c", ""));
    assert_ne!(history_path("a"), history_path("a/b"));
    assert_eq!(original_path("a/b", "x"), original_path("a", "b/x"));
}
