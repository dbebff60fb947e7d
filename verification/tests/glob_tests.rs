use mvln::{expand_globs, is_glob_pattern, GlobError};

#[test]
fn test_is_glob_pattern() {
    // Patterns with glob metacharacters
    assert!(is_glob_pattern("*.txt"));
    assert!(is_glob_pattern("file?.log"));
    assert!(is_glob_pattern("test[123].dat"));
    assert!(is_glob_pattern("src/**/*.rs"));
    assert!(is_glob_pattern("file[a-z].txt"));

    // Regular paths
    assert!(!is_glob_pattern("regular_file.txt"));
    assert!(!is_glob_pattern("/path/to/file"));
    assert!(!is_glob_pattern("dir/subdir/file.log"));
}

#[test]
fn test_expand_single_regular_path() {
    let patterns = vec!["Cargo.toml".to_string()];
    let result = expand_globs(&patterns).unwrap();
    assert_eq!(result.len(), 1);
    assert_eq!(result[0], "Cargo.toml".to_string());
}

#[test]
fn test_expand_multiple_regular_paths() {
    let patterns = vec![
        "file1.txt".to_string(),
        "file2.txt".to_string(),
        "file3.txt".to_string(),
    ];
    let result = expand_globs(&patterns).unwrap();
    assert_eq!(result.len(), 3);
    assert_eq!(result[0], "file1.txt".to_string());
    assert_eq!(result[1], "file2.txt".to_string());
    assert_eq!(result[2], "file3.txt".to_string());
}

#[test]
fn test_expand_glob_cargo_toml() {
    // This test uses actual files in the project
    let patterns = vec!["Cargo.toml".to_string()];
    let result = expand_globs(&patterns).unwrap();
    assert!(!result.is_empty());
    assert!(result[0].contains("Cargo.toml"));
}

#[test]
fn test_expand_glob_with_wildcard() {
    // Test with an entry that really exists where the tests run
    let patterns = vec!["sr*".to_string()];
    let result = expand_globs(&patterns).unwrap();
    assert!(!result.is_empty());
    assert!(result.iter().any(|p| p.contains("src")));
}

#[test]
fn test_results_are_sorted() {
    // Mix regular paths to test sorting
    let patterns = vec![
        "zebra.txt".to_string(),
        "alpha.txt".to_string(),
        "beta.txt".to_string(),
    ];
    let result = expand_globs(&patterns).unwrap();
    assert_eq!(result[0], "alpha.txt".to_string());
    assert_eq!(result[1], "beta.txt".to_string());
    assert_eq!(result[2], "zebra.txt".to_string());
}

#[test]
fn test_nonexistent_glob_returns_error() {
    let patterns = vec!["nonexistent_*.xyz".to_string()];
    let result = expand_globs(&patterns);
    assert!(result.is_err());
    match result {
        Err(GlobError::NoMatches { pattern }) => {
            assert_eq!(pattern, "nonexistent_*.xyz");
        }
        _ => panic!("Expected NoMatches error"),
    }
}

#[test]
fn test_invalid_glob_pattern() {
    // Unclosed bracket is invalid glob syntax
    let patterns = vec!["file[abc".to_string()];
    let result = expand_globs(&patterns);
    assert!(result.is_err());
    assert!(matches!(result, Err(GlobError::InvalidPattern { .. })));
}

#[test]
fn glob_error_messages_name_the_pattern() {
    let patterns = vec!["file[abc".to_string()];
    let err = expand_globs(&patterns).unwrap_err();
    assert!(err.message().starts_with("invalid glob pattern 'file[abc': "));

    let patterns = vec!["nonexistent_*.xyz".to_string()];
    let err = expand_globs(&patterns).unwrap_err();
    assert_eq!(err.message(), "no files matched pattern: nonexistent_*.xyz");
}
