use mvln::operation::{Action, Engine, Event, FsKind, MoveOptions, Step};
use mvln::MvlnError;

fn act(s: Step) -> Action {
    match s {
        Step::Do(a) => a,
        other => panic!("expected an action, got {:?}", other),
    }
}

fn fail(s: Step) -> MvlnError {
    match s {
        Step::Fail(e) => e,
        other => panic!("expected a failure, got {:?}", other),
    }
}

fn stat(kind: FsKind) -> Event {
    Event::Stat {
        kind,
        detail: String::new(),
    }
}

fn canon(path: &str) -> Event {
    Event::Canon {
        ok: true,
        path: path.to_string(),
    }
}

fn canon_err() -> Event {
    Event::Canon {
        ok: false,
        path: String::new(),
    }
}

fn done_ok() -> Event {
    Event::Done {
        ok: true,
        detail: String::new(),
    }
}

fn removed_ok() -> Event {
    Event::Removed {
        ok: true,
        not_found: false,
        detail: String::new(),
    }
}

fn defaults() -> MoveOptions {
    MoveOptions {
        absolute: false,
        force: false,
        dry_run: false,
    }
}

/// Moving `file.txt` into the existing empty directory `dest/` with
/// default options: the engine renames to `dest/file.txt` and has a
/// relative symlink created at `file.txt` whose target resolves back
/// to the destination.
#[test]
fn scenario_move_file_into_directory() {
    let (e, a) = Engine::new(
        "file.txt".to_string(),
        "dest".to_string(),
        defaults(),
        Some("/w".to_string()),
    );
    assert!(matches!(a, Action::StatAt { ref path } if path == "file.txt"));

    let (e, s) = e.step(stat(FsKind::File));
    assert!(matches!(act(s), Action::IsDirAt { ref path } if path == "dest"));

    let (e, s) = e.step(Event::IsDir { yes: true });
    assert!(matches!(act(s), Action::CanonAt { ref path } if path == "file.txt"));

    let (e, s) = e.step(canon("/w/file.txt"));
    assert!(matches!(act(s), Action::StatAt { ref path } if path == "dest/file.txt"));

    let (e, s) = e.step(stat(FsKind::Missing));
    assert!(matches!(act(s), Action::CanonAt { ref path } if path == "dest/file.txt"));

    let (e, s) = e.step(canon_err());
    assert!(matches!(act(s), Action::CanonAt { ref path } if path == "dest"));

    let (e, s) = e.step(canon("/w/dest"));
    assert!(matches!(act(s), Action::ExistsAt { ref path } if path == "dest"));

    let (e, s) = e.step(Event::Exists { yes: true });
    match act(s) {
        Action::RenameAt { from, to } => {
            assert_eq!(from, "file.txt");
            assert_eq!(to, "dest/file.txt");
        }
        other => panic!("expected the rename, got {:?}", other),
    }

    let (e, s) = e.step(Event::Renamed {
        ok: true,
        code: None,
        detail: String::new(),
    });
    assert!(matches!(act(s), Action::StatAt { ref path } if path == "file.txt"));

    let (e, s) = e.step(stat(FsKind::Missing));
    match act(s) {
        Action::MakeLinkAt { target, link } => {
            assert_eq!(target, "dest/file.txt");
            assert_eq!(link, "file.txt");
        }
        other => panic!("expected the symlink creation, got {:?}", other),
    }

    let (_, s) = e.step(done_ok());
    match s {
        Step::Finish(res) => {
            assert_eq!(res.source, "file.txt");
            assert_eq!(res.dest, "dest/file.txt");
            assert_eq!(res.symlink_target, "dest/file.txt");
        }
        other => panic!("expected the outcome, got {:?}", other),
    }
}

/// A self-move is rejected with SameSourceAndDest before anything is
/// touched: every action asked for up to the failure is read-only.
#[test]
fn self_move_is_rejected() {
    let (e, _) = Engine::new(
        "a.txt".to_string(),
        "a.txt".to_string(),
        defaults(),
        Some("/w".to_string()),
    );
    let (e, s) = e.step(stat(FsKind::File));
    assert!(matches!(act(s), Action::IsDirAt { .. }));
    let (e, s) = e.step(Event::IsDir { yes: false });
    assert!(matches!(act(s), Action::CanonAt { .. }));
    let (e, s) = e.step(canon("/w/a.txt"));
    assert!(matches!(act(s), Action::StatAt { .. }));
    let (e, s) = e.step(stat(FsKind::File));
    assert!(matches!(act(s), Action::CanonAt { .. }));
    let (_, s) = e.step(canon("/w/a.txt"));
    match fail(s) {
        MvlnError::SameSourceAndDest { path } => assert_eq!(path, "a.txt"),
        other => panic!("expected SameSourceAndDest, got {:?}", other),
    }
}

/// Moving a real directory into its own subtree is rejected with
/// DestinationInsideSource before any copy begins.
#[test]
fn containment_is_rejected() {
    let (e, _) = Engine::new(
        "d".to_string(),
        "d/sub".to_string(),
        defaults(),
        Some("/w".to_string()),
    );
    let (e, _) = e.step(stat(FsKind::Dir));
    let (e, _) = e.step(Event::IsDir { yes: false });
    let (e, _) = e.step(canon("/w/d"));
    let (e, _) = e.step(stat(FsKind::Missing));
    let (e, _) = e.step(canon_err());
    let (_, s) = e.step(canon("/w/d"));
    match fail(s) {
        MvlnError::DestinationInsideSource { src, dest } => {
            assert_eq!(src, "d");
            assert_eq!(dest, "d/sub");
        }
        other => panic!("expected DestinationInsideSource, got {:?}", other),
    }
}

/// A symlink source is not a real directory: moving it under the very
/// directory it points into is no containment.
#[test]
fn symlink_source_is_no_containment() {
    let (e, _) = Engine::new(
        "d_link".to_string(),
        "d/sub".to_string(),
        defaults(),
        Some("/w".to_string()),
    );
    let (e, s) = e.step(stat(FsKind::Symlink));
    assert!(matches!(act(s), Action::IsDirAt { .. }));
    let (e, s) = e.step(Event::IsDir { yes: false });
    // A symlink source has its parent canonicalized, never itself.
    assert!(matches!(act(s), Action::CanonAt { ref path } if path == ""));
    let (e, _) = e.step(canon("/w"));
    let (e, _) = e.step(stat(FsKind::Missing));
    let (e, _) = e.step(canon_err());
    let (_, s) = e.step(canon("/w/d"));
    // The verdict passes into the mutation phases.
    assert!(matches!(s, Step::Do(Action::ExistsAt { .. })));
}

/// A missing source fails with SourceNotFound at the first step.
#[test]
fn missing_source_is_rejected() {
    let (e, _) = Engine::new(
        "nope.txt".to_string(),
        "dest".to_string(),
        defaults(),
        None,
    );
    let (_, s) = e.step(stat(FsKind::Missing));
    match fail(s) {
        MvlnError::SourceNotFound { path } => assert_eq!(path, "nope.txt"),
        other => panic!("expected SourceNotFound, got {:?}", other),
    }
}

/// An unreadable source fails with SourceAccessError carrying the
/// operating system's message.
#[test]
fn denied_source_is_reported() {
    let (e, _) = Engine::new("p.txt".to_string(), "dest".to_string(), defaults(), None);
    let (_, s) = e.step(Event::Stat {
        kind: FsKind::Denied,
        detail: "permission denied".to_string(),
    });
    match fail(s) {
        MvlnError::SourceAccessError { path, reason } => {
            assert_eq!(path, "p.txt");
            assert_eq!(reason, "permission denied");
        }
        other => panic!("expected SourceAccessError, got {:?}", other),
    }
}

/// An occupied destination without leave to overwrite fails with
/// DestinationExists and nothing is touched.
#[test]
fn occupied_destination_is_rejected() {
    let (e, _) = Engine::new(
        "a.txt".to_string(),
        "b.txt".to_string(),
        defaults(),
        Some("/w".to_string()),
    );
    let (e, _) = e.step(stat(FsKind::File));
    let (e, _) = e.step(Event::IsDir { yes: false });
    let (e, _) = e.step(canon("/w/a.txt"));
    let (e, _) = e.step(stat(FsKind::File));
    let (_, s) = e.step(canon("/w/b.txt"));
    match fail(s) {
        MvlnError::DestinationExists { path } => assert_eq!(path, "b.txt"),
        other => panic!("expected DestinationExists, got {:?}", other),
    }
}

/// A dry run ends at the verdict with the very symlink target a real
/// run would use, and asks for no mutating action at all.
#[test]
fn dry_run_reports_without_mutating() {
    let opts = MoveOptions {
        absolute: false,
        force: false,
        dry_run: true,
    };
    let (e, _) = Engine::new(
        "file.txt".to_string(),
        "dest".to_string(),
        opts,
        Some("/w".to_string()),
    );
    let (e, _) = e.step(stat(FsKind::File));
    let (e, _) = e.step(Event::IsDir { yes: true });
    let (e, _) = e.step(canon("/w/file.txt"));
    let (e, _) = e.step(stat(FsKind::Missing));
    let (e, _) = e.step(canon_err());
    let (_, s) = e.step(canon("/w/dest"));
    match s {
        Step::Finish(res) => {
            assert_eq!(res.source, "file.txt");
            assert_eq!(res.dest, "dest/file.txt");
            // The same target the real run in
            // scenario_move_file_into_directory goes on to create.
            assert_eq!(res.symlink_target, "dest/file.txt");
        }
        other => panic!("expected the dry-run outcome, got {:?}", other),
    }
}

/// Overwriting a destination that is a symlink to a directory unlinks
/// the symlink itself; the directory behind it is never removed.
#[test]
fn overwrite_unlinks_symlink_never_its_target() {
    let opts = MoveOptions {
        absolute: false,
        force: true,
        dry_run: false,
    };
    let (e, _) = Engine::new(
        "new.txt".to_string(),
        "linked".to_string(),
        opts,
        Some("/w".to_string()),
    );
    let (e, _) = e.step(stat(FsKind::File));
    let (e, _) = e.step(Event::IsDir { yes: false });
    let (e, _) = e.step(canon("/w/new.txt"));
    // The destination is a symlink (whose target happens to be a
    // directory full of files).
    let (e, s) = e.step(stat(FsKind::Symlink));
    assert!(matches!(act(s), Action::CanonAt { .. }));
    let (e, s) = e.step(canon("/w"));
    // Verdict passed; the parent is checked first.
    assert!(matches!(act(s), Action::ExistsAt { .. }));
    let (e, s) = e.step(Event::Exists { yes: true });
    // Overwriting: the destination is stat'ed afresh.
    assert!(matches!(act(s), Action::StatAt { ref path } if path == "linked"));
    let (e, s) = e.step(stat(FsKind::Symlink));
    // The symlink is unlinked itself — never a recursive removal.
    match act(s) {
        Action::UnlinkAt { path } => assert_eq!(path, "linked"),
        other => panic!("expected the unlink of the symlink, got {:?}", other),
    }
    let (_, s) = e.step(removed_ok());
    assert!(matches!(s, Step::Do(Action::RenameAt { .. })));
}

/// Overwriting a real directory removes it recursively.
#[test]
fn overwrite_removes_real_directory_recursively() {
    let opts = MoveOptions {
        absolute: false,
        force: true,
        dry_run: false,
    };
    let (e, _) = Engine::new(
        "new.txt".to_string(),
        "olddir".to_string(),
        opts,
        Some("/w".to_string()),
    );
    let (e, _) = e.step(stat(FsKind::File));
    let (e, _) = e.step(Event::IsDir { yes: false });
    let (e, _) = e.step(canon("/w/new.txt"));
    let (e, _) = e.step(stat(FsKind::Dir));
    let (e, _) = e.step(canon("/w/olddir"));
    let (e, _) = e.step(Event::Exists { yes: true });
    let (_, s) = e.step(stat(FsKind::Dir));
    match act(s) {
        Action::RmTreeAt { path } => assert_eq!(path, "olddir"),
        other => panic!("expected the recursive removal, got {:?}", other),
    }
}

/// Only the cross-device errno turns a failed rename into a copy; the
/// copied file may replace the source only after the destination has
/// been re-verified present.
#[test]
fn cross_device_copies_then_verifies_then_removes() {
    let (e, _) = Engine::new(
        "a.txt".to_string(),
        "/mnt/b.txt".to_string(),
        defaults(),
        Some("/w".to_string()),
    );
    let (e, _) = e.step(stat(FsKind::File));
    let (e, _) = e.step(Event::IsDir { yes: false });
    let (e, _) = e.step(canon("/w/a.txt"));
    let (e, _) = e.step(stat(FsKind::Missing));
    let (e, _) = e.step(canon_err());
    let (e, _) = e.step(canon("/mnt"));
    let (e, s) = e.step(Event::Exists { yes: true });
    assert!(matches!(act(s), Action::RenameAt { .. }));
    // The rename fails with the cross-device errno.
    let (e, s) = e.step(Event::Renamed {
        ok: false,
        code: Some(18),
        detail: "cross-device link".to_string(),
    });
    assert!(matches!(act(s), Action::StatAt { ref path } if path == "a.txt"));
    let (e, s) = e.step(stat(FsKind::File));
    match act(s) {
        Action::CopyFileAt { from, to } => {
            assert_eq!(from, "a.txt");
            assert_eq!(to, "/mnt/b.txt");
        }
        other => panic!("expected the copy, got {:?}", other),
    }
    let (e, s) = e.step(done_ok());
    // The destination is re-verified before the source may go.
    assert!(matches!(act(s), Action::ExistsAt { ref path } if path == "/mnt/b.txt"));
    let (e, s) = e.step(Event::Exists { yes: true });
    match act(s) {
        Action::UnlinkAt { path } => assert_eq!(path, "a.txt"),
        other => panic!("expected the source removal, got {:?}", other),
    }
    let (e, s) = e.step(removed_ok());
    assert!(matches!(act(s), Action::StatAt { .. }));
    let (e, s) = e.step(stat(FsKind::Missing));
    assert!(matches!(act(s), Action::MakeLinkAt { .. }));
    let (_, s) = e.step(done_ok());
    assert!(matches!(s, Step::Finish(_)));
}

/// When the verification after the copy fails, the source is kept and
/// the copy reported failed: no removal is ever asked for.
#[test]
fn unverified_copy_keeps_the_source() {
    let (e, _) = Engine::new(
        "a.txt".to_string(),
        "/mnt/b.txt".to_string(),
        defaults(),
        Some("/w".to_string()),
    );
    let (e, _) = e.step(stat(FsKind::File));
    let (e, _) = e.step(Event::IsDir { yes: false });
    let (e, _) = e.step(canon("/w/a.txt"));
    let (e, _) = e.step(stat(FsKind::Missing));
    let (e, _) = e.step(canon_err());
    let (e, _) = e.step(canon("/mnt"));
    let (e, _) = e.step(Event::Exists { yes: true });
    let (e, _) = e.step(Event::Renamed {
        ok: false,
        code: Some(18),
        detail: String::new(),
    });
    let (e, _) = e.step(stat(FsKind::File));
    let (e, _) = e.step(done_ok());
    let (_, s) = e.step(Event::Exists { yes: false });
    match fail(s) {
        MvlnError::CopyFailed { src, dest, reason } => {
            assert_eq!(src, "a.txt");
            assert_eq!(dest, "/mnt/b.txt");
            assert_eq!(reason, "destination not found after copy");
        }
        other => panic!("expected CopyFailed, got {:?}", other),
    }
}

/// A rename failure with any other errno aborts the move with the
/// source untouched.
#[test]
fn other_rename_failure_aborts() {
    let (e, _) = Engine::new(
        "a.txt".to_string(),
        "b.txt".to_string(),
        defaults(),
        Some("/w".to_string()),
    );
    let (e, _) = e.step(stat(FsKind::File));
    let (e, _) = e.step(Event::IsDir { yes: false });
    let (e, _) = e.step(canon("/w/a.txt"));
    let (e, _) = e.step(stat(FsKind::Missing));
    let (e, _) = e.step(canon_err());
    let (e, _) = e.step(canon("/w"));
    let (e, _) = e.step(Event::Exists { yes: true });
    let (_, s) = e.step(Event::Renamed {
        ok: false,
        code: Some(13),
        detail: "permission denied".to_string(),
    });
    match fail(s) {
        MvlnError::MoveFailed { src, dest, reason } => {
            assert_eq!(src, "a.txt");
            assert_eq!(dest, "b.txt");
            assert_eq!(reason, "permission denied");
        }
        other => panic!("expected MoveFailed, got {:?}", other),
    }
}

/// A directory tree is copied entry by entry across filesystems, and a
/// symlink inside it is read and re-created — never followed.
#[test]
fn tree_copy_preserves_embedded_symlinks() {
    let (e, _) = Engine::new(
        "d".to_string(),
        "/mnt/d".to_string(),
        defaults(),
        Some("/w".to_string()),
    );
    let (e, _) = e.step(stat(FsKind::Dir));
    let (e, _) = e.step(Event::IsDir { yes: false });
    let (e, _) = e.step(canon("/w/d"));
    let (e, _) = e.step(stat(FsKind::Missing));
    let (e, _) = e.step(canon_err());
    let (e, _) = e.step(canon("/mnt"));
    let (e, _) = e.step(Event::Exists { yes: true });
    let (e, _) = e.step(Event::Renamed {
        ok: false,
        code: Some(18),
        detail: String::new(),
    });
    // The source is a real directory: the tree walk begins.
    let (e, s) = e.step(stat(FsKind::Dir));
    assert!(matches!(act(s), Action::MkDirsAt { ref path } if path == "/mnt/d"));
    let (e, s) = e.step(done_ok());
    assert!(matches!(act(s), Action::ReadDirAt { ref path } if path == "d"));
    let (e, s) = e.step(Event::Entries {
        ok: true,
        names: vec!["ln".to_string(), "f.txt".to_string()],
        detail: String::new(),
    });
    // First entry, in listed order: the symlink.
    assert!(matches!(act(s), Action::StatAt { ref path } if path == "d/ln"));
    let (e, s) = e.step(stat(FsKind::Symlink));
    // Its stored target is read — the link is never entered.
    assert!(matches!(act(s), Action::ReadLinkAt { ref path } if path == "d/ln"));
    let (e, s) = e.step(Event::Link {
        ok: true,
        target: "../outside".to_string(),
        detail: String::new(),
    });
    match act(s) {
        Action::MakeLinkAt { target, link } => {
            assert_eq!(target, "../outside");
            assert_eq!(link, "/mnt/d/ln");
        }
        other => panic!("expected the symlink re-creation, got {:?}", other),
    }
    let (e, s) = e.step(done_ok());
    // Second entry: the regular file.
    assert!(matches!(act(s), Action::StatAt { ref path } if path == "d/f.txt"));
    let (e, s) = e.step(stat(FsKind::File));
    assert!(matches!(act(s), Action::CopyFileAt { .. }));
    let (e, s) = e.step(done_ok());
    // All jobs done: the destination is re-verified.
    assert!(matches!(act(s), Action::ExistsAt { ref path } if path == "/mnt/d"));
    let (e, s) = e.step(Event::Exists { yes: true });
    // Only now is the source tree removed.
    assert!(matches!(act(s), Action::RmTreeAt { ref path } if path == "d"));
    let (e, s) = e.step(removed_ok());
    assert!(matches!(act(s), Action::StatAt { .. }));
    let (e, s) = e.step(stat(FsKind::Missing));
    assert!(matches!(act(s), Action::MakeLinkAt { .. }));
    let (_, s) = e.step(done_ok());
    assert!(matches!(s, Step::Finish(_)));
}

/// When the replacement symlink cannot be created, the failure names
/// where the moved data safely sits.
#[test]
fn failed_link_names_the_destination() {
    let (e, _) = Engine::new(
        "a.txt".to_string(),
        "b.txt".to_string(),
        defaults(),
        Some("/w".to_string()),
    );
    let (e, _) = e.step(stat(FsKind::File));
    let (e, _) = e.step(Event::IsDir { yes: false });
    let (e, _) = e.step(canon("/w/a.txt"));
    let (e, _) = e.step(stat(FsKind::Missing));
    let (e, _) = e.step(canon_err());
    let (e, _) = e.step(canon("/w"));
    let (e, _) = e.step(Event::Exists { yes: true });
    let (e, _) = e.step(Event::Renamed {
        ok: true,
        code: None,
        detail: String::new(),
    });
    // Something reappeared at the source path; it is removed first,
    // and a NotFound while removing is no failure.
    let (e, s) = e.step(stat(FsKind::File));
    assert!(matches!(act(s), Action::UnlinkAt { ref path } if path == "a.txt"));
    let (e, s) = e.step(Event::Removed {
        ok: false,
        not_found: true,
        detail: "gone".to_string(),
    });
    assert!(matches!(act(s), Action::MakeLinkAt { .. }));
    let (_, s) = e.step(Event::Done {
        ok: false,
        detail: "read-only filesystem".to_string(),
    });
    match fail(s) {
        MvlnError::SymlinkFailed {
            link,
            target,
            reason,
        } => {
            assert_eq!(link, "a.txt");
            assert_eq!(target, "b.txt");
            assert_eq!(reason, "read-only filesystem");
        }
        other => panic!("expected SymlinkFailed, got {:?}", other),
    }
}

/// A missing parent directory is created before the move.
#[test]
fn missing_parent_is_created() {
    let (e, _) = Engine::new(
        "a.txt".to_string(),
        "deep/down/b.txt".to_string(),
        defaults(),
        Some("/w".to_string()),
    );
    let (e, _) = e.step(stat(FsKind::File));
    let (e, _) = e.step(Event::IsDir { yes: false });
    let (e, _) = e.step(canon("/w/a.txt"));
    let (e, _) = e.step(stat(FsKind::Missing));
    let (e, _) = e.step(canon_err());
    let (e, s) = e.step(canon("/w/deep/down"));
    assert!(matches!(act(s), Action::ExistsAt { ref path } if path == "deep/down"));
    let (e, s) = e.step(Event::Exists { yes: false });
    assert!(matches!(act(s), Action::MkDirsAt { ref path } if path == "deep/down"));
    let (_, s) = e.step(done_ok());
    assert!(matches!(act(s), Action::RenameAt { .. }));
    // And a failure to create it is fatal with nothing moved.
    let (e2, _) = Engine::new(
        "a.txt".to_string(),
        "deep/down/b.txt".to_string(),
        defaults(),
        Some("/w".to_string()),
    );
    let (e2, _) = e2.step(stat(FsKind::File));
    let (e2, _) = e2.step(Event::IsDir { yes: false });
    let (e2, _) = e2.step(canon("/w/a.txt"));
    let (e2, _) = e2.step(stat(FsKind::Missing));
    let (e2, _) = e2.step(canon_err());
    let (e2, _) = e2.step(canon("/w/deep/down"));
    let (e2, _) = e2.step(Event::Exists { yes: false });
    let (_, s2) = e2.step(Event::Done {
        ok: false,
        detail: "no space".to_string(),
    });
    match fail(s2) {
        MvlnError::CreateDirFailed { path, reason } => {
            assert_eq!(path, "deep/down");
            assert_eq!(reason, "no space");
        }
        other => panic!("expected CreateDirFailed, got {:?}", other),
    }
}

/// A symlink source is copied across filesystems by re-creating the
/// link at the destination; the original link is removed only after.
#[test]
fn cross_device_symlink_source_is_recreated() {
    let (e, _) = Engine::new(
        "ln".to_string(),
        "/mnt/ln".to_string(),
        defaults(),
        Some("/w".to_string()),
    );
    let (e, _) = e.step(stat(FsKind::Symlink));
    let (e, _) = e.step(Event::IsDir { yes: false });
    let (e, _) = e.step(canon("/w"));
    let (e, _) = e.step(stat(FsKind::Missing));
    let (e, _) = e.step(canon_err());
    let (e, _) = e.step(canon("/mnt"));
    let (e, _) = e.step(Event::Exists { yes: true });
    let (e, _) = e.step(Event::Renamed {
        ok: false,
        code: Some(18),
        detail: String::new(),
    });
    let (e, s) = e.step(stat(FsKind::Symlink));
    assert!(matches!(act(s), Action::ReadLinkAt { ref path } if path == "ln"));
    let (e, s) = e.step(Event::Link {
        ok: true,
        target: "target.txt".to_string(),
        detail: String::new(),
    });
    match act(s) {
        Action::MakeLinkAt { target, link } => {
            assert_eq!(target, "target.txt");
            assert_eq!(link, "/mnt/ln");
        }
        other => panic!("expected the symlink re-creation, got {:?}", other),
    }
    let (e, s) = e.step(done_ok());
    // Only after the new link exists is the original removed.
    assert!(matches!(act(s), Action::UnlinkAt { ref path } if path == "ln"));
    let (_, s) = e.step(removed_ok());
    assert!(matches!(act(s), Action::StatAt { .. }));
}

/// In absolute mode the reported symlink target is the destination
/// made absolute against the working directory — and never
/// canonicalized.
#[test]
fn absolute_mode_reports_absolute_target() {
    let opts = MoveOptions {
        absolute: true,
        force: false,
        dry_run: true,
    };
    let (e, _) = Engine::new(
        "file.txt".to_string(),
        "dest".to_string(),
        opts,
        Some("/w".to_string()),
    );
    let (e, _) = e.step(stat(FsKind::File));
    let (e, _) = e.step(Event::IsDir { yes: true });
    let (e, _) = e.step(canon("/w/file.txt"));
    let (e, _) = e.step(stat(FsKind::Missing));
    let (e, _) = e.step(canon_err());
    let (_, s) = e.step(canon("/w/dest"));
    match s {
        Step::Finish(res) => {
            assert_eq!(res.symlink_target, "/w/dest/file.txt");
        }
        other => panic!("expected the dry-run outcome, got {:?}", other),
    }
}

/// When the source cannot be removed after a verified copy, the
/// distinct copied-but-not-removed condition is reported: the data
/// exists in both places.
#[test]
fn copied_but_not_removed_is_distinct() {
    let (e, _) = Engine::new(
        "a.txt".to_string(),
        "/mnt/b.txt".to_string(),
        defaults(),
        Some("/w".to_string()),
    );
    let (e, _) = e.step(stat(FsKind::File));
    let (e, _) = e.step(Event::IsDir { yes: false });
    let (e, _) = e.step(canon("/w/a.txt"));
    let (e, _) = e.step(stat(FsKind::Missing));
    let (e, _) = e.step(canon_err());
    let (e, _) = e.step(canon("/mnt"));
    let (e, _) = e.step(Event::Exists { yes: true });
    let (e, _) = e.step(Event::Renamed {
        ok: false,
        code: Some(18),
        detail: String::new(),
    });
    let (e, _) = e.step(stat(FsKind::File));
    let (e, _) = e.step(done_ok());
    let (e, _) = e.step(Event::Exists { yes: true });
    let (_, s) = e.step(Event::Removed {
        ok: false,
        not_found: false,
        detail: "busy".to_string(),
    });
    match fail(s) {
        MvlnError::RemoveFailed { src, dest, reason } => {
            assert_eq!(src, "a.txt");
            assert_eq!(dest, "/mnt/b.txt");
            assert_eq!(reason, "busy");
        }
        other => panic!("expected RemoveFailed, got {:?}", other),
    }
}

/// An answer of the wrong shape ends the run with an input/output
/// error instead of going on with stale state.
#[test]
fn mismatched_answer_ends_the_run() {
    let (e, _) = Engine::new("a".to_string(), "b".to_string(), defaults(), None);
    // The engine asked for a stat; answer with a directory question.
    let (_, s) = e.step(Event::IsDir { yes: true });
    assert!(matches!(fail(s), MvlnError::Io { .. }));
}
