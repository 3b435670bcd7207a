use sourcepin::filename::{sanitize_file_name, store_name};

#[test]
fn sanitize_keeps_allowed_characters() {
    assert_eq!(sanitize_file_name("pkg-1.2_x?y=z+a"), "pkg-1.2_x?y=z+a");
}

#[test]
fn sanitize_replaces_disallowed_characters() {
    assert_eq!(sanitize_file_name("a b/c&d"), "a_b_c_d");
}

#[test]
fn sanitize_leading_dot_becomes_underscore() {
    assert_eq!(sanitize_file_name(".hidden"), "_hidden");
}

#[test]
fn sanitize_empty_yields_fallback() {
    assert_eq!(sanitize_file_name(""), "source");
}

#[test]
fn sanitize_keeps_first_character_unless_dot() {
    // Only a leading dot is replaced at the first position; later characters
    // are held to the allowed set.
    assert_eq!(sanitize_file_name("!a!b"), "!a_b");
}

#[test]
fn store_name_without_hint_is_fallback() {
    assert_eq!(store_name(None), "source");
}

#[test]
fn store_name_sanitizes_hint() {
    assert_eq!(store_name(Some("my file.zip")), "my_file.zip");
}
