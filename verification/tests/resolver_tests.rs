use mvln::compute_symlink_target;

#[test]
fn absolute_path_returns_target_directly() {
    // In absolute mode an absolute target is returned as it is; it is
    // never canonicalized, so a target that is itself a symlink keeps
    // its own identity.
    let result = compute_symlink_target(
        &"/a/b/link".to_string(),
        &"/x/y/file".to_string(),
        true,
        &None,
    );
    assert_eq!(result, "/x/y/file".to_string());
}

#[test]
fn relative_path_same_directory() {
    // Link at /a/b/link pointing to /a/b/file -> just "file"
    let result = compute_symlink_target(
        &"/a/b/link".to_string(),
        &"/a/b/file".to_string(),
        false,
        &None,
    );
    assert_eq!(result, "file".to_string());
}

#[test]
fn relative_path_sibling_directory() {
    // Link at /a/b/link pointing to /a/c/file -> ../c/file
    let result = compute_symlink_target(
        &"/a/b/link".to_string(),
        &"/a/c/file".to_string(),
        false,
        &None,
    );
    assert_eq!(result, "../c/file".to_string());
}

#[test]
fn relative_path_different_branches() {
    // Link at /a/b/c/link pointing to /x/y/file -> ../../../x/y/file
    let result = compute_symlink_target(
        &"/a/b/c/link".to_string(),
        &"/x/y/file".to_string(),
        false,
        &None,
    );
    assert_eq!(result, "../../../x/y/file".to_string());
}

#[test]
fn absolute_mode_with_relative_target() {
    // When absolute=true and target is relative, convert to absolute
    let result = compute_symlink_target(
        &"/a/b/link".to_string(),
        &"relative/file.txt".to_string(),
        true,
        &Some("/work".to_string()),
    );
    // Result should be absolute (joined with the working directory)
    assert!(
        result.starts_with('/'),
        "Expected absolute path, got: {:?}",
        result
    );
    assert_eq!(result, "/work/relative/file.txt".to_string());
}

#[test]
fn absolute_mode_with_absolute_target() {
    // When absolute=true and target is already absolute, keep as-is
    let result = compute_symlink_target(
        &"/a/b/link".to_string(),
        &"/absolute/path/file.txt".to_string(),
        true,
        &None,
    );
    assert_eq!(result, "/absolute/path/file.txt".to_string());
}

#[test]
fn relative_mode_with_relative_inputs_uses_cwd() {
    // Both inputs relative: they are made absolute against the working
    // directory first, then diffed.
    let result = compute_symlink_target(
        &"file.txt".to_string(),
        &"dest/file.txt".to_string(),
        false,
        &Some("/w".to_string()),
    );
    assert_eq!(result, "dest/file.txt".to_string());
}

#[test]
fn relative_mode_without_cwd_keeps_target() {
    // With no working directory a relative pair cannot be diffed; the
    // target is kept as given.
    let result = compute_symlink_target(
        &"file.txt".to_string(),
        &"dest/file.txt".to_string(),
        false,
        &None,
    );
    assert_eq!(result, "dest/file.txt".to_string());
}

#[test]
fn relative_round_trip_resolves_back() {
    // The stored text, read from the link's directory, reaches the
    // target again: /a/b + ../c/file normalizes to /a/c/file.
    let stored = compute_symlink_target(
        &"/a/b/link".to_string(),
        &"/a/c/file".to_string(),
        false,
        &None,
    );
    assert_eq!(stored, "../c/file".to_string());
    let joined = format!("/a/b/{}", stored);
    let mut parts: Vec<&str> = Vec::new();
    for piece in joined.split('/') {
        if piece.is_empty() || piece == "." {
            continue;
        }
        if piece == ".." {
            parts.pop();
        } else {
            parts.push(piece);
        }
    }
    assert_eq!(format!("/{}", parts.join("/")), "/a/c/file");
}
