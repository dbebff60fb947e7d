use mvln::cli::{batch_result, directory_gate, validate_multi_dest, Cli};
use mvln::MvlnError;

#[test]
fn test_default_to_relative() {
    let cli = Cli {
        source: vec!["src".to_string()],
        dest: "dst".to_string(),
        relative: false,
        absolute: false,
        whole_dir: false,
        verbose: false,
    };

    let options = cli.to_move_options();
    assert!(!options.absolute); // Default is relative
}

#[test]
fn test_explicit_relative() {
    let cli = Cli {
        source: vec!["src".to_string()],
        dest: "dst".to_string(),
        relative: true,
        absolute: false,
        whole_dir: false,
        verbose: false,
    };

    let options = cli.to_move_options();
    assert!(!options.absolute); // Explicit relative
}

#[test]
fn test_explicit_absolute() {
    let cli = Cli {
        source: vec!["src".to_string()],
        dest: "dst".to_string(),
        relative: false,
        absolute: true,
        whole_dir: false,
        verbose: false,
    };

    let options = cli.to_move_options();
    assert!(options.absolute); // Explicit absolute
}

#[test]
fn test_multiple_sources() {
    let cli = Cli {
        source: vec![
            "file1.txt".to_string(),
            "file2.txt".to_string(),
            "dir".to_string(),
        ],
        dest: "target".to_string(),
        relative: false,
        absolute: false,
        whole_dir: false,
        verbose: false,
    };

    assert_eq!(cli.source.len(), 3);
}

#[test]
fn multi_source_needs_directory_destination() {
    assert!(validate_multi_dest(1, false).is_ok());
    assert!(validate_multi_dest(2, true).is_ok());
    let err = validate_multi_dest(2, false).unwrap_err();
    assert!(matches!(err, MvlnError::InvalidDestination { .. }));
    assert_eq!(
        err.message(),
        "invalid destination: destination must be a directory when moving multiple files"
    );
}

#[test]
fn directory_source_needs_flag() {
    let src = "some_dir".to_string();
    assert!(directory_gate(&src, false, false).is_ok());
    assert!(directory_gate(&src, true, true).is_ok());
    let err = directory_gate(&src, true, false).unwrap_err();
    match err {
        MvlnError::IsDirectory { path } => {
            assert_eq!(path, "some_dir");
        }
        other => panic!("expected IsDirectory, got {:?}", other),
    }
    assert_eq!(
        directory_gate(&src, true, false).unwrap_err().message(),
        "source is a directory: some_dir"
    );
}

#[test]
fn batch_result_counts_failures() {
    assert!(batch_result(0).is_ok());
    match batch_result(3).unwrap_err() {
        MvlnError::BatchOperationFailed { count } => assert_eq!(count, 3),
        other => panic!("expected BatchOperationFailed, got {:?}", other),
    }
}

#[test]
fn expand_sources_maps_glob_failures() {
    let sources = vec!["file[abc".to_string()];
    let err = mvln::cli::expand_sources(&sources).unwrap_err();
    match err {
        MvlnError::GlobExpansionFailed { .. } => {
            assert!(err
                .message()
                .starts_with("glob expansion failed: invalid glob pattern 'file[abc': "));
        }
        other => panic!("expected GlobExpansionFailed, got {:?}", other),
    }
}

#[test]
fn expand_sources_passes_plain_paths() {
    let sources = vec!["b.txt".to_string(), "a.txt".to_string()];
    let v = mvln::cli::expand_sources(&sources).unwrap();
    assert_eq!(v, vec!["a.txt".to_string(), "b.txt".to_string()]);
}
