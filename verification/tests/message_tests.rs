use mvln::MvlnError;
use mvln::cli::{find_original_input, shell_escape};
use mvln::error::usize_to_string;

#[test]
fn error_messages_match_their_kinds() {
    assert_eq!(
        MvlnError::SourceNotFound {
            path: "x.txt".to_string()
        }
        .message(),
        "source not found: x.txt"
    );
    assert_eq!(
        MvlnError::SourceAccessError {
            path: "x".to_string(),
            reason: "denied".to_string()
        }
        .message(),
        "cannot access source x: denied"
    );
    assert_eq!(
        MvlnError::DestinationExists {
            path: "d".to_string()
        }
        .message(),
        "destination already exists: d"
    );
    assert_eq!(
        MvlnError::SameSourceAndDest {
            path: "p".to_string()
        }
        .message(),
        "source and destination are the same: p"
    );
    assert_eq!(
        MvlnError::DestinationInsideSource {
            src: "d".to_string(),
            dest: "d/s".to_string()
        }
        .message(),
        "cannot move directory into itself: d -> d/s"
    );
    assert_eq!(
        MvlnError::MoveFailed {
            src: "a".to_string(),
            dest: "b".to_string(),
            reason: "why".to_string()
        }
        .message(),
        "failed to move a to b: why"
    );
    assert_eq!(
        MvlnError::CopyFailed {
            src: "a".to_string(),
            dest: "b".to_string(),
            reason: "why".to_string()
        }
        .message(),
        "failed to copy a to b: why"
    );
    assert_eq!(
        MvlnError::RemoveFailed {
            src: "a".to_string(),
            dest: "b".to_string(),
            reason: "why".to_string()
        }
        .message(),
        "copied but failed to remove source a: why"
    );
    assert_eq!(
        MvlnError::SymlinkFailed {
            link: "l".to_string(),
            target: "t".to_string(),
            reason: "why".to_string()
        }
        .message(),
        "failed to create symlink l -> t: why"
    );
    assert_eq!(
        MvlnError::CreateDirFailed {
            path: "p".to_string(),
            reason: "why".to_string()
        }
        .message(),
        "failed to create directory p: why"
    );
    assert_eq!(
        MvlnError::IsDirectory {
            path: "d".to_string()
        }
        .message(),
        "source is a directory: d"
    );
    assert_eq!(
        MvlnError::BatchOperationFailed { count: 12 }.message(),
        "12 operation(s) failed"
    );
    assert_eq!(
        MvlnError::Io {
            reason: "broken".to_string()
        }
        .message(),
        "I/O error: broken"
    );
}

#[test]
fn decimal_rendering_is_exact() {
    assert_eq!(usize_to_string(0), "0");
    assert_eq!(usize_to_string(7), "7");
    assert_eq!(usize_to_string(10), "10");
    assert_eq!(usize_to_string(409), "409");
    assert_eq!(usize_to_string(10050), "10050");
}

#[test]
fn shell_escape_leaves_plain_text_alone() {
    assert_eq!(shell_escape("file.txt"), "file.txt");
    assert_eq!(shell_escape("/path/to/file"), "/path/to/file");
}

#[test]
fn shell_escape_quotes_specials() {
    assert_eq!(shell_escape("my file.txt"), "'my file.txt'");
    assert_eq!(shell_escape("a*b"), "'a*b'");
    assert_eq!(shell_escape("it's"), r"'it'\''s'");
    assert_eq!(shell_escape("$HOME"), "'$HOME'");
}

#[test]
fn shell_escape_leaves_plain_non_ascii_alone() {
    // Text beyond ASCII with nothing special in it passes unchanged.
    assert_eq!(shell_escape("caf\u{e9}.txt"), "caf\u{e9}.txt");
    // Unicode whitespace is still whitespace, so it is quoted.
    assert_eq!(shell_escape("a\u{a0}b"), "'a\u{a0}b'");
}

#[test]
fn find_original_prefers_exact_then_normalized() {
    let args = vec!["./file.txt".to_string(), "other".to_string()];
    // The first argument names the same path, so the user's spelling
    // is kept.
    assert_eq!(
        find_original_input(&args, &"file.txt".to_string()),
        "./file.txt"
    );
    // An exact match wins as well.
    assert_eq!(find_original_input(&args, &"other".to_string()), "other");
    // A glob argument ends the search: the expanded path is shown.
    let globs = vec!["*.txt".to_string()];
    assert_eq!(
        find_original_input(&globs, &"match.txt".to_string()),
        "match.txt"
    );
    // No argument fits: the expanded path is shown.
    let none = vec!["a".to_string()];
    assert_eq!(find_original_input(&none, &"b".to_string()), "b");
}
