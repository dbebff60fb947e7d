//! The mathematical model of the move-and-link engine.
//!
//! The engine is a state machine: it asks the caller for one filesystem
//! action at a time and consumes the caller's answer.  This module holds
//! the ghost mirror of its state, events and actions, and the transition
//! function `spec_step` that the executable engine is proved to follow.
//! Every safety statement about the engine is a statement about
//! `spec_step`.

use vstd::prelude::*;

use crate::operation::{FsKind, MoveOptions};
use crate::path_model::{same_path, spec_file_name, spec_join, spec_parent, path_within};
use crate::path_utils::spec_compute_target;

verus! {

/// The cross-device errno, the one rename failure that is answered by
/// a copy instead of an abort.
pub open spec fn exdev_code() -> i32 {
    18
}

/// What the engine remembers once the preflight checks have passed.
#[verifier::ext_equal]
pub ghost struct CtxV {
    /// The effective destination.
    pub resolved: Seq<char>,
    /// The text the replacement symlink will store.
    pub target: Seq<char>,
    /// The source's kind, from the non-following stat.
    pub source_kind: FsKind,
    /// The destination's kind, from the non-following stat.
    pub dest_kind: FsKind,
    /// Whether anything was at the destination.
    pub dest_exists: bool,
}

/// One pending copy of a directory entry.
#[verifier::ext_equal]
pub ghost struct JobV {
    pub src: Seq<char>,
    pub dst: Seq<char>,
}

/// The engine's phase.  `Await…` names what the last emitted action
/// will answer.
#[verifier::ext_equal]
pub ghost enum PhaseV {
    /// Awaiting the non-following stat of the source.
    StatSource,
    /// Awaiting whether the destination is an existing directory.
    ResolveDest { source_kind: FsKind },
    /// Awaiting the canonical form of the source itself.
    CanonSrcSelf { source_kind: FsKind, resolved: Seq<char> },
    /// Awaiting the canonical form of the source's parent.
    CanonSrcParent { source_kind: FsKind, resolved: Seq<char> },
    /// Awaiting the non-following stat of the resolved destination.
    StatResolved { source_kind: FsKind, resolved: Seq<char>, abs_src: Seq<char> },
    /// Awaiting the canonical form of the resolved destination itself.
    CanonDstSelf {
        source_kind: FsKind,
        resolved: Seq<char>,
        abs_src: Seq<char>,
        dest_kind: FsKind,
        dest_exists: bool,
    },
    /// Awaiting the canonical form of the resolved destination's parent.
    CanonDstParent {
        source_kind: FsKind,
        resolved: Seq<char>,
        abs_src: Seq<char>,
        dest_kind: FsKind,
        dest_exists: bool,
    },
    /// Awaiting whether the destination's parent directory exists.
    ParentCheck { m: CtxV, parent: Seq<char> },
    /// Awaiting the creation of the destination's parent directories.
    MkDirs { m: CtxV, parent: Seq<char> },
    /// Awaiting the fresh stat of the destination before it is removed.
    OverwriteStat { m: CtxV },
    /// Awaiting the removal of the old destination.
    OverwriteRemove { m: CtxV, removed_kind: FsKind },
    /// Awaiting the rename of source to destination.
    Renaming { m: CtxV },
    /// Awaiting the stat of the source before the copy fallback.
    CopyStat { m: CtxV },
    /// Awaiting the stored target of a symlink source.
    CopyLinkRead { m: CtxV },
    /// Awaiting the re-creation of a symlink source at the destination.
    CopyLinkMake { m: CtxV },
    /// Awaiting the copy of a regular-file source.
    CopyFileDone { m: CtxV },
    /// Awaiting the creation of one destination directory of the tree.
    TreeDirCreated { m: CtxV, jobs: Seq<JobV>, cur_src: Seq<char>, cur_dst: Seq<char> },
    /// Awaiting the entry names of one source directory of the tree.
    TreeEntries { m: CtxV, jobs: Seq<JobV>, cur_src: Seq<char>, cur_dst: Seq<char> },
    /// Awaiting the stat of one entry of the tree.
    TreeItemStat { m: CtxV, jobs: Seq<JobV>, job: JobV },
    /// Awaiting the stored target of one symlink entry of the tree.
    TreeItemLink { m: CtxV, jobs: Seq<JobV>, job: JobV },
    /// Awaiting the re-creation of one symlink entry of the tree.
    TreeItemLinkMake { m: CtxV, jobs: Seq<JobV>, job: JobV },
    /// Awaiting the copy of one regular-file entry of the tree.
    TreeItemFile { m: CtxV, jobs: Seq<JobV>, job: JobV },
    /// Awaiting the re-check that the destination exists after a copy.
    CopyVerify { m: CtxV, was_dir: bool },
    /// Awaiting the removal of the source after a confirmed copy.
    SourceRemove { m: CtxV, from_link: bool },
    /// Awaiting the stat of the source path before the link is made.
    LinkCleanupStat { m: CtxV },
    /// Awaiting the removal of a leftover entry at the source path.
    LinkCleanupRemove { m: CtxV },
    /// Awaiting the creation of the replacement symlink.
    LinkCreate { m: CtxV },
    /// The run has ended.
    Finished,
}

/// The ghost mirror of the engine.
#[verifier::ext_equal]
pub ghost struct EngineV {
    pub source: Seq<char>,
    pub dest: Seq<char>,
    pub opts: MoveOptions,
    pub cwd: Option<Seq<char>>,
    pub phase: PhaseV,
}

/// The ghost mirror of an action.
#[verifier::ext_equal]
pub ghost enum ActV {
    /// Non-following stat.
    Stat(Seq<char>),
    /// Following check: is this an existing directory?
    IsDir(Seq<char>),
    /// Following check: does anything exist here?
    Exists(Seq<char>),
    /// Canonicalize.
    Canon(Seq<char>),
    /// Create the directory and its missing parents.
    MkDirs(Seq<char>),
    /// Remove one non-directory entry (a symlink is removed itself).
    Unlink(Seq<char>),
    /// Remove a directory tree.
    RmTree(Seq<char>),
    /// Atomic rename.
    Rename(Seq<char>, Seq<char>),
    /// Copy one regular file, keeping its modification time if possible.
    CopyFile(Seq<char>, Seq<char>),
    /// Read a symlink's stored target.
    ReadLink(Seq<char>),
    /// Create a symlink storing `0` at path `1`.
    MakeLink(Seq<char>, Seq<char>),
    /// List a directory's entry names.
    ReadDir(Seq<char>),
}

/// The ghost mirror of an event.
#[verifier::ext_equal]
pub ghost enum EvV {
    Stat { kind: FsKind, detail: Seq<char> },
    IsDir { yes: bool },
    Exists { yes: bool },
    Canon { ok: bool, path: Seq<char> },
    Done { ok: bool, detail: Seq<char> },
    Removed { ok: bool, not_found: bool, detail: Seq<char> },
    Renamed { ok: bool, code: Option<i32>, detail: Seq<char> },
    Link { ok: bool, target: Seq<char>, detail: Seq<char> },
    Entries { ok: bool, names: Seq<Seq<char>>, detail: Seq<char> },
}

/// The ghost mirror of an error.
#[verifier::ext_equal]
pub ghost enum ErrV {
    SourceNotFound(Seq<char>),
    SourceAccess(Seq<char>, Seq<char>),
    DestinationExists(Seq<char>),
    IsDirectory(Seq<char>),
    SameSourceAndDest(Seq<char>),
    DestinationInsideSource(Seq<char>, Seq<char>),
    TypeMismatch(Seq<char>, Seq<char>, Seq<char>, Seq<char>),
    MoveFailed(Seq<char>, Seq<char>, Seq<char>),
    CopyFailed(Seq<char>, Seq<char>, Seq<char>),
    RemoveFailed(Seq<char>, Seq<char>, Seq<char>),
    SymlinkFailed(Seq<char>, Seq<char>, Seq<char>),
    CreateDirFailed(Seq<char>, Seq<char>),
    InvalidDestination(Seq<char>),
    InvalidPath(Seq<char>, Seq<char>),
    GlobExpansionFailed(Seq<char>),
    BatchOperationFailed(int),
    Io(Seq<char>),
}

/// The ghost mirror of a successful outcome.
#[verifier::ext_equal]
pub ghost struct ResV {
    pub source: Seq<char>,
    pub dest: Seq<char>,
    pub symlink_target: Seq<char>,
}

/// The ghost mirror of what one step hands back.
#[verifier::ext_equal]
pub ghost enum StepV {
    Do(ActV),
    Finish(ResV),
    Fail(ErrV),
}

/// The parent to canonicalize for a path that is itself a symlink:
/// the raw parent text, or `.` when there is none.
pub open spec fn v_parent_raw_or_dot(p: Seq<char>) -> Seq<char> {
    match spec_parent(p) {
        Option::Some(q) => q,
        Option::None => seq!['.'],
    }
}

/// The parent to canonicalize for a path that could not be
/// canonicalized itself: the parent text with the empty text read as
/// the working directory.
pub open spec fn v_parent_nonempty_or_dot(p: Seq<char>) -> Seq<char> {
    match spec_parent(p) {
        Option::Some(q) => if q.len() == 0 {
            seq!['.']
        } else {
            q
        },
        Option::None => seq!['.'],
    }
}

/// The last component of a path, or the empty text.
pub open spec fn v_leaf_or_empty(p: Seq<char>) -> Seq<char> {
    match spec_file_name(p) {
        Option::Some(n) => n,
        Option::None => Seq::empty(),
    }
}

/// The effective destination: a destination that is an existing
/// directory receives the source's last component.
pub open spec fn v_resolved(source: Seq<char>, dest: Seq<char>, dest_is_dir: bool) -> Seq<char> {
    if dest_is_dir {
        match spec_file_name(source) {
            Option::Some(n) => spec_join(dest, n),
            Option::None => dest,
        }
    } else {
        dest
    }
}

/// End the run with an error.
pub open spec fn v_fail(e: EngineV, err: ErrV) -> (EngineV, StepV) {
    (EngineV { phase: PhaseV::Finished, ..e }, StepV::Fail(err))
}

/// Begin the move itself: remove the old destination first when
/// overwriting, else rename at once.
pub open spec fn v_goto_move(e: EngineV, m: CtxV) -> (EngineV, StepV) {
    if m.dest_exists && e.opts.force {
        (EngineV { phase: PhaseV::OverwriteStat { m }, ..e }, StepV::Do(ActV::Stat(m.resolved)))
    } else {
        (
            EngineV { phase: PhaseV::Renaming { m }, ..e },
            StepV::Do(ActV::Rename(e.source, m.resolved)),
        )
    }
}

/// Begin the linking phase: look at what is left at the source path.
pub open spec fn v_start_link(e: EngineV, m: CtxV) -> (EngineV, StepV) {
    (EngineV { phase: PhaseV::LinkCleanupStat { m }, ..e }, StepV::Do(ActV::Stat(e.source)))
}

/// Take the next pending copy job, or go verify the copied tree.
pub open spec fn v_next_job(e: EngineV, m: CtxV, jobs: Seq<JobV>) -> (EngineV, StepV) {
    if jobs.len() == 0 {
        (
            EngineV { phase: PhaseV::CopyVerify { m, was_dir: true }, ..e },
            StepV::Do(ActV::Exists(m.resolved)),
        )
    } else {
        let job = jobs.last();
        (
            EngineV { phase: PhaseV::TreeItemStat { m, jobs: jobs.drop_last(), job }, ..e },
            StepV::Do(ActV::Stat(job.src)),
        )
    }
}

/// The copy jobs of a directory's entries, in reverse so that taking
/// from the end walks them in their listed order.
pub open spec fn v_entry_jobs(cur_src: Seq<char>, cur_dst: Seq<char>, names: Seq<Seq<char>>) -> Seq<
    JobV,
> {
    Seq::new(
        names.len(),
        |i: int|
            JobV {
                src: spec_join(cur_src, names[names.len() - 1 - i]),
                dst: spec_join(cur_dst, names[names.len() - 1 - i]),
            },
    )
}

/// The preflight verdict and what follows it.  Runs once both absolute
/// forms are known: rejects a self-move, a destination inside a real
/// directory source, and an occupied destination without leave to
/// overwrite; then computes the link target, stops here on a dry run,
/// and otherwise turns to the destination's parent directory.
pub open spec fn v_decide(
    e: EngineV,
    source_kind: FsKind,
    resolved: Seq<char>,
    abs_src: Seq<char>,
    abs_dst: Seq<char>,
    dest_kind: FsKind,
    dest_exists: bool,
) -> (EngineV, StepV) {
    if same_path(abs_src, abs_dst) {
        v_fail(e, ErrV::SameSourceAndDest(e.source))
    } else if source_kind == FsKind::Dir && path_within(abs_dst, abs_src) {
        v_fail(e, ErrV::DestinationInsideSource(e.source, resolved))
    } else if dest_exists && !e.opts.force {
        v_fail(e, ErrV::DestinationExists(resolved))
    } else {
        let target = spec_compute_target(e.source, resolved, e.opts.absolute, e.cwd);
        if e.opts.dry_run {
            (
                EngineV { phase: PhaseV::Finished, ..e },
                StepV::Finish(ResV { source: e.source, dest: resolved, symlink_target: target }),
            )
        } else {
            let m = CtxV { resolved, target, source_kind, dest_kind, dest_exists };
            match spec_parent(resolved) {
                Option::Some(parent) => (
                    EngineV { phase: PhaseV::ParentCheck { m, parent }, ..e },
                    StepV::Do(ActV::Exists(parent)),
                ),
                Option::None => v_goto_move(e, m),
            }
        }
    }
}

/// else ask whether the destination is an existing directory.
pub open spec fn v_stat_source(e: EngineV, kind: FsKind, detail: Seq<char>) -> (EngineV, StepV) {
    if kind == FsKind::Missing {
        v_fail(e, ErrV::SourceNotFound(e.source))
    } else if kind == FsKind::Denied {
        v_fail(e, ErrV::SourceAccess(e.source, detail))
    } else {
        (
            EngineV { phase: PhaseV::ResolveDest { source_kind: kind }, ..e },
            StepV::Do(ActV::IsDir(e.dest)),
        )
    }
}

/// The destination's directory question is answered: fix the effective
/// destination, then canonicalize the source (its parent when the
/// source is a symlink, so the link itself is never resolved).
pub open spec fn v_resolve_dest(e: EngineV, source_kind: FsKind, yes: bool) -> (EngineV, StepV) {
    let resolved = v_resolved(e.source, e.dest, yes);
    if source_kind == FsKind::Symlink {
        (
            EngineV { phase: PhaseV::CanonSrcParent { source_kind, resolved }, ..e },
            StepV::Do(ActV::Canon(v_parent_raw_or_dot(e.source))),
        )
    } else {
        (
            EngineV { phase: PhaseV::CanonSrcSelf { source_kind, resolved }, ..e },
            StepV::Do(ActV::Canon(e.source)),
        )
    }
}

/// The source itself was canonicalized, or could not be: keep the
/// canonical form, or fall back to the source's parent.
pub open spec fn v_canon_src_self(
    e: EngineV,
    source_kind: FsKind,
    resolved: Seq<char>,
    ok: bool,
    path: Seq<char>,
) -> (EngineV, StepV) {
    if ok {
        (
            EngineV { phase: PhaseV::StatResolved { source_kind, resolved, abs_src: path }, ..e },
            StepV::Do(ActV::Stat(resolved)),
        )
    } else {
        (
            EngineV { phase: PhaseV::CanonSrcParent { source_kind, resolved }, ..e },
            StepV::Do(ActV::Canon(v_parent_nonempty_or_dot(e.source))),
        )
    }
}

/// The source's parent was canonicalized: the source's absolute form
/// is the canonical parent with the source's last component appended,
/// or the source text itself when even the parent had no canonical
/// form.
pub open spec fn v_canon_src_parent(
    e: EngineV,
    source_kind: FsKind,
    resolved: Seq<char>,
    ok: bool,
    path: Seq<char>,
) -> (EngineV, StepV) {
    let abs_src = if ok {
        spec_join(path, v_leaf_or_empty(e.source))
    } else {
        e.source
    };
    (
        EngineV { phase: PhaseV::StatResolved { source_kind, resolved, abs_src }, ..e },
        StepV::Do(ActV::Stat(resolved)),
    )
}

/// The resolved destination has been stat'ed: remember what is there,
/// then canonicalize it the same way as the source.
pub open spec fn v_stat_resolved(
    e: EngineV,
    source_kind: FsKind,
    resolved: Seq<char>,
    abs_src: Seq<char>,
    kind: FsKind,
) -> (EngineV, StepV) {
    let dest_exists = kind != FsKind::Missing && kind != FsKind::Denied;
    if kind == FsKind::Symlink {
        (
            EngineV {
                phase: PhaseV::CanonDstParent {
                    source_kind,
                    resolved,
                    abs_src,
                    dest_kind: kind,
                    dest_exists,
                },
                ..e
            },
            StepV::Do(ActV::Canon(v_parent_raw_or_dot(resolved))),
        )
    } else {
        (
            EngineV {
                phase: PhaseV::CanonDstSelf {
                    source_kind,
                    resolved,
                    abs_src,
                    dest_kind: kind,
                    dest_exists,
                },
                ..e
            },
            StepV::Do(ActV::Canon(resolved)),
        )
    }
}

/// The destination itself was canonicalized, or could not be: decide,
/// or fall back to the destination's parent.
pub open spec fn v_canon_dst_self(
    e: EngineV,
    source_kind: FsKind,
    resolved: Seq<char>,
    abs_src: Seq<char>,
    dest_kind: FsKind,
    dest_exists: bool,
    ok: bool,
    path: Seq<char>,
) -> (EngineV, StepV) {
    if ok {
        v_decide(e, source_kind, resolved, abs_src, path, dest_kind, dest_exists)
    } else {
        (
            EngineV {
                phase: PhaseV::CanonDstParent {
                    source_kind,
                    resolved,
                    abs_src,
                    dest_kind,
                    dest_exists,
                },
                ..e
            },
            StepV::Do(ActV::Canon(v_parent_nonempty_or_dot(resolved))),
        )
    }
}

/// The destination's parent was canonicalized: build the destination's
/// absolute form and decide.
pub open spec fn v_canon_dst_parent(
    e: EngineV,
    source_kind: FsKind,
    resolved: Seq<char>,
    abs_src: Seq<char>,
    dest_kind: FsKind,
    dest_exists: bool,
    ok: bool,
    path: Seq<char>,
) -> (EngineV, StepV) {
    let abs_dst = if ok {
        spec_join(path, v_leaf_or_empty(resolved))
    } else {
        resolved
    };
    v_decide(e, source_kind, resolved, abs_src, abs_dst, dest_kind, dest_exists)
}

/// The parent-directory question is answered: move, or create the
/// missing parents first.
pub open spec fn v_parent_check(e: EngineV, m: CtxV, parent: Seq<char>, yes: bool) -> (
    EngineV,
    StepV,
) {
    if yes {
        v_goto_move(e, m)
    } else {
        (EngineV { phase: PhaseV::MkDirs { m, parent }, ..e }, StepV::Do(ActV::MkDirs(parent)))
    }
}

/// The parents were created, or not: move, or abort with nothing
/// moved yet.
pub open spec fn v_mk_dirs(e: EngineV, m: CtxV, parent: Seq<char>, ok: bool, detail: Seq<char>) -> (
    EngineV,
    StepV,
) {
    if ok {
        v_goto_move(e, m)
    } else {
        v_fail(e, ErrV::CreateDirFailed(parent, detail))
    }
}

/// The destination was stat'ed afresh before its removal: a symlink is
/// unlinked itself — never removed as a directory, which would destroy
/// the target's contents — a real directory is removed recursively,
/// anything else is unlinked.
pub open spec fn v_overwrite_stat(e: EngineV, m: CtxV, kind: FsKind) -> (EngineV, StepV) {
    if kind == FsKind::Dir {
        (
            EngineV { phase: PhaseV::OverwriteRemove { m, removed_kind: kind }, ..e },
            StepV::Do(ActV::RmTree(m.resolved)),
        )
    } else {
        (
            EngineV { phase: PhaseV::OverwriteRemove { m, removed_kind: kind }, ..e },
            StepV::Do(ActV::Unlink(m.resolved)),
        )
    }
}

/// The old destination was removed, or not: rename, or abort.
pub open spec fn v_overwrite_remove(
    e: EngineV,
    m: CtxV,
    removed_kind: FsKind,
    ok: bool,
    detail: Seq<char>,
) -> (EngineV, StepV) {
    if ok {
        (
            EngineV { phase: PhaseV::Renaming { m }, ..e },
            StepV::Do(ActV::Rename(e.source, m.resolved)),
        )
    } else {
        let prefix = if removed_kind == FsKind::Symlink {
            "failed to remove existing symlink: "@
        } else if removed_kind == FsKind::Dir {
            "failed to remove existing directory: "@
        } else {
            "failed to remove existing file: "@
        };
        v_fail(e, ErrV::MoveFailed(e.source, m.resolved, prefix + detail))
    }
}

/// The rename is answered: link on success; on the cross-device errno
/// fall back to a copy; any other failure aborts with the source
/// untouched.
pub open spec fn v_renaming(
    e: EngineV,
    m: CtxV,
    ok: bool,
    code: Option<i32>,
    detail: Seq<char>,
) -> (EngineV, StepV) {
    if ok {
        v_start_link(e, m)
    } else if code == Option::Some(exdev_code()) {
        (EngineV { phase: PhaseV::CopyStat { m }, ..e }, StepV::Do(ActV::Stat(e.source)))
    } else {
        v_fail(e, ErrV::MoveFailed(e.source, m.resolved, detail))
    }
}

/// The source was stat'ed for the copy fallback: a symlink is copied
/// as a symlink (its stored target is read, never followed), a real
/// directory entry by entry, anything else as one file.
pub open spec fn v_copy_stat(e: EngineV, m: CtxV, kind: FsKind) -> (EngineV, StepV) {
    if kind == FsKind::Symlink {
        (EngineV { phase: PhaseV::CopyLinkRead { m }, ..e }, StepV::Do(ActV::ReadLink(e.source)))
    } else if kind == FsKind::Dir {
        (
            EngineV {
                phase: PhaseV::TreeDirCreated {
                    m,
                    jobs: Seq::empty(),
                    cur_src: e.source,
                    cur_dst: m.resolved,
                },
                ..e
            },
            StepV::Do(ActV::MkDirs(m.resolved)),
        )
    } else {
        (
            EngineV { phase: PhaseV::CopyFileDone { m }, ..e },
            StepV::Do(ActV::CopyFile(e.source, m.resolved)),
        )
    }
}

/// The symlink source's stored target was read: re-create it at the
/// destination.
pub open spec fn v_copy_link_read(
    e: EngineV,
    m: CtxV,
    ok: bool,
    target: Seq<char>,
    detail: Seq<char>,
) -> (EngineV, StepV) {
    if ok {
        (
            EngineV { phase: PhaseV::CopyLinkMake { m }, ..e },
            StepV::Do(ActV::MakeLink(target, m.resolved)),
        )
    } else {
        v_fail(e, ErrV::CopyFailed(e.source, m.resolved, "failed to read symlink: "@ + detail))
    }
}

/// The symlink was re-created at the destination: only now remove the
/// original link.
pub open spec fn v_copy_link_make(e: EngineV, m: CtxV, ok: bool, detail: Seq<char>) -> (
    EngineV,
    StepV,
) {
    if ok {
        (
            EngineV { phase: PhaseV::SourceRemove { m, from_link: true }, ..e },
            StepV::Do(ActV::Unlink(e.source)),
        )
    } else {
        v_fail(e, ErrV::CopyFailed(e.source, m.resolved, "failed to create symlink: "@ + detail))
    }
}

/// The single-file copy is answered: verify the destination before the
/// source may go.
pub open spec fn v_copy_file_done(e: EngineV, m: CtxV, ok: bool, detail: Seq<char>) -> (
    EngineV,
    StepV,
) {
    if ok {
        (
            EngineV { phase: PhaseV::CopyVerify { m, was_dir: false }, ..e },
            StepV::Do(ActV::Exists(m.resolved)),
        )
    } else {
        v_fail(e, ErrV::CopyFailed(e.source, m.resolved, detail))
    }
}

/// One destination directory of the tree was created: list the
/// matching source directory.
pub open spec fn v_tree_dir_created(
    e: EngineV,
    m: CtxV,
    jobs: Seq<JobV>,
    cur_src: Seq<char>,
    cur_dst: Seq<char>,
    ok: bool,
    detail: Seq<char>,
) -> (EngineV, StepV) {
    if ok {
        (
            EngineV { phase: PhaseV::TreeEntries { m, jobs, cur_src, cur_dst }, ..e },
            StepV::Do(ActV::ReadDir(cur_src)),
        )
    } else {
        v_fail(e, ErrV::CreateDirFailed(cur_dst, detail))
    }
}

/// One source directory of the tree was listed: queue a copy job per
/// entry and take the next one.
pub open spec fn v_tree_entries(
    e: EngineV,
    m: CtxV,
    jobs: Seq<JobV>,
    cur_src: Seq<char>,
    cur_dst: Seq<char>,
    ok: bool,
    names: Seq<Seq<char>>,
    detail: Seq<char>,
) -> (EngineV, StepV) {
    if ok {
        v_next_job(e, m, jobs + v_entry_jobs(cur_src, cur_dst, names))
    } else {
        v_fail(e, ErrV::CopyFailed(cur_src, cur_dst, detail))
    }
}

/// One entry of the tree was stat'ed: a symlink is copied as a
/// symlink, a directory is entered, anything else is copied as one
/// file.  A symlink is never followed, so the walk cannot leave the
/// source tree.
pub open spec fn v_tree_item_stat(
    e: EngineV,
    m: CtxV,
    jobs: Seq<JobV>,
    job: JobV,
    kind: FsKind,
) -> (EngineV, StepV) {
    if kind == FsKind::Symlink {
        (
            EngineV { phase: PhaseV::TreeItemLink { m, jobs, job }, ..e },
            StepV::Do(ActV::ReadLink(job.src)),
        )
    } else if kind == FsKind::Dir {
        (
            EngineV { phase: PhaseV::TreeDirCreated { m, jobs, cur_src: job.src, cur_dst: job.dst }, ..e },
            StepV::Do(ActV::MkDirs(job.dst)),
        )
    } else {
        (
            EngineV { phase: PhaseV::TreeItemFile { m, jobs, job }, ..e },
            StepV::Do(ActV::CopyFile(job.src, job.dst)),
        )
    }
}

/// One symlink entry's stored target was read: re-create it.
pub open spec fn v_tree_item_link(
    e: EngineV,
    m: CtxV,
    jobs: Seq<JobV>,
    job: JobV,
    ok: bool,
    target: Seq<char>,
    detail: Seq<char>,
) -> (EngineV, StepV) {
    if ok {
        (
            EngineV { phase: PhaseV::TreeItemLinkMake { m, jobs, job }, ..e },
            StepV::Do(ActV::MakeLink(target, job.dst)),
        )
    } else {
        v_fail(e, ErrV::CopyFailed(job.src, job.dst, "failed to read symlink: "@ + detail))
    }
}

/// One symlink entry was re-created: take the next job.
pub open spec fn v_tree_item_link_make(
    e: EngineV,
    m: CtxV,
    jobs: Seq<JobV>,
    job: JobV,
    ok: bool,
    detail: Seq<char>,
) -> (EngineV, StepV) {
    if ok {
        v_next_job(e, m, jobs)
    } else {
        v_fail(e, ErrV::CopyFailed(job.src, job.dst, "failed to create symlink: "@ + detail))
    }
}

/// One regular-file entry was copied: take the next job.
pub open spec fn v_tree_item_file(
    e: EngineV,
    m: CtxV,
    jobs: Seq<JobV>,
    job: JobV,
    ok: bool,
    detail: Seq<char>,
) -> (EngineV, StepV) {
    if ok {
        v_next_job(e, m, jobs)
    } else {
        v_fail(e, ErrV::CopyFailed(job.src, job.dst, detail))
    }
}

/// The copied destination was re-checked: only a destination that is
/// confirmed present lets the source be removed; otherwise the source
/// is kept and the copy reported failed.
pub open spec fn v_copy_verify(e: EngineV, m: CtxV, was_dir: bool, yes: bool) -> (EngineV, StepV) {
    if yes {
        if was_dir {
            (
                EngineV { phase: PhaseV::SourceRemove { m, from_link: false }, ..e },
                StepV::Do(ActV::RmTree(e.source)),
            )
        } else {
            (
                EngineV { phase: PhaseV::SourceRemove { m, from_link: false }, ..e },
                StepV::Do(ActV::Unlink(e.source)),
            )
        }
    } else {
        v_fail(e, ErrV::CopyFailed(e.source, m.resolved, "destination not found after copy"@))
    }
}

/// The source's removal is answered: link, or report the
/// copied-but-not-removed state — the data then exists in both places,
/// nothing is lost.
pub open spec fn v_source_remove(
    e: EngineV,
    m: CtxV,
    from_link: bool,
    ok: bool,
    detail: Seq<char>,
) -> (EngineV, StepV) {
    if ok {
        v_start_link(e, m)
    } else {
        let reason = if from_link {
            "failed to remove symlink: "@ + detail
        } else {
            detail
        };
        v_fail(e, ErrV::RemoveFailed(e.source, m.resolved, reason))
    }
}

/// The source path was stat'ed before linking: anything left there is
/// removed first.
pub open spec fn v_link_cleanup_stat(e: EngineV, m: CtxV, kind: FsKind) -> (EngineV, StepV) {
    if kind == FsKind::Missing {
        (
            EngineV { phase: PhaseV::LinkCreate { m }, ..e },
            StepV::Do(ActV::MakeLink(m.target, e.source)),
        )
    } else {
        (EngineV { phase: PhaseV::LinkCleanupRemove { m }, ..e }, StepV::Do(ActV::Unlink(e.source)))
    }
}

/// The leftover's removal is answered; nothing having been there is no
/// failure.
pub open spec fn v_link_cleanup_remove(
    e: EngineV,
    m: CtxV,
    ok: bool,
    not_found: bool,
    detail: Seq<char>,
) -> (EngineV, StepV) {
    if ok || not_found {
        (
            EngineV { phase: PhaseV::LinkCreate { m }, ..e },
            StepV::Do(ActV::MakeLink(m.target, e.source)),
        )
    } else {
        v_fail(
            e,
            ErrV::SymlinkFailed(
                e.source,
                m.resolved,
                "failed to remove existing file at source: "@ + detail,
            ),
        )
    }
}

/// The symlink's creation is answered: done, or the distinct failure
/// whose payload names where the moved data safely sits.
pub open spec fn v_link_create(e: EngineV, m: CtxV, ok: bool, detail: Seq<char>) -> (
    EngineV,
    StepV,
) {
    if ok {
        (
            EngineV { phase: PhaseV::Finished, ..e },
            StepV::Finish(ResV { source: e.source, dest: m.resolved, symlink_target: m.target }),
        )
    } else {
        v_fail(e, ErrV::SymlinkFailed(e.source, m.resolved, detail))
    }
}

/// One transition of the engine: from a state and the answer to its
/// pending action, to the next state and either the next action, the
/// outcome, or the error.
pub open spec fn spec_step(e: EngineV, ev: EvV) -> (EngineV, StepV) {
    match (e.phase, ev) {
        (PhaseV::StatSource, EvV::Stat { kind, detail }) => v_stat_source(e, kind, detail),
        (PhaseV::ResolveDest { source_kind }, EvV::IsDir { yes }) => v_resolve_dest(
            e,
            source_kind,
            yes,
        ),
        (PhaseV::CanonSrcSelf { source_kind, resolved }, EvV::Canon { ok, path }) => (
        v_canon_src_self(e, source_kind, resolved, ok, path)),
        (PhaseV::CanonSrcParent { source_kind, resolved }, EvV::Canon { ok, path }) => (
        v_canon_src_parent(e, source_kind, resolved, ok, path)),
        (PhaseV::StatResolved { source_kind, resolved, abs_src }, EvV::Stat { kind, .. }) => (
        v_stat_resolved(e, source_kind, resolved, abs_src, kind)),
        (
            PhaseV::CanonDstSelf { source_kind, resolved, abs_src, dest_kind, dest_exists },
            EvV::Canon { ok, path },
        ) => v_canon_dst_self(e, source_kind, resolved, abs_src, dest_kind, dest_exists, ok, path),
        (
            PhaseV::CanonDstParent { source_kind, resolved, abs_src, dest_kind, dest_exists },
            EvV::Canon { ok, path },
        ) => v_canon_dst_parent(
            e,
            source_kind,
            resolved,
            abs_src,
            dest_kind,
            dest_exists,
            ok,
            path,
        ),
        (PhaseV::ParentCheck { m, parent }, EvV::Exists { yes }) => v_parent_check(
            e,
            m,
            parent,
            yes,
        ),
        (PhaseV::MkDirs { m, parent }, EvV::Done { ok, detail }) => v_mk_dirs(
            e,
            m,
            parent,
            ok,
            detail,
        ),
        (PhaseV::OverwriteStat { m }, EvV::Stat { kind, .. }) => v_overwrite_stat(e, m, kind),
        (PhaseV::OverwriteRemove { m, removed_kind }, EvV::Removed { ok, detail, .. }) => (
        v_overwrite_remove(e, m, removed_kind, ok, detail)),
        (PhaseV::Renaming { m }, EvV::Renamed { ok, code, detail }) => v_renaming(
            e,
            m,
            ok,
            code,
            detail,
        ),
        (PhaseV::CopyStat { m }, EvV::Stat { kind, .. }) => v_copy_stat(e, m, kind),
        (PhaseV::CopyLinkRead { m }, EvV::Link { ok, target, detail }) => v_copy_link_read(
            e,
            m,
            ok,
            target,
            detail,
        ),
        (PhaseV::CopyLinkMake { m }, EvV::Done { ok, detail }) => v_copy_link_make(
            e,
            m,
            ok,
            detail,
        ),
        (PhaseV::CopyFileDone { m }, EvV::Done { ok, detail }) => v_copy_file_done(
            e,
            m,
            ok,
            detail,
        ),
        (PhaseV::TreeDirCreated { m, jobs, cur_src, cur_dst }, EvV::Done { ok, detail }) => (
        v_tree_dir_created(e, m, jobs, cur_src, cur_dst, ok, detail)),
        (PhaseV::TreeEntries { m, jobs, cur_src, cur_dst }, EvV::Entries { ok, names, detail }) => (
        v_tree_entries(e, m, jobs, cur_src, cur_dst, ok, names, detail)),
        (PhaseV::TreeItemStat { m, jobs, job }, EvV::Stat { kind, .. }) => v_tree_item_stat(
            e,
            m,
            jobs,
            job,
            kind,
        ),
        (PhaseV::TreeItemLink { m, jobs, job }, EvV::Link { ok, target, detail }) => (
        v_tree_item_link(e, m, jobs, job, ok, target, detail)),
        (PhaseV::TreeItemLinkMake { m, jobs, job }, EvV::Done { ok, detail }) => (
        v_tree_item_link_make(e, m, jobs, job, ok, detail)),
        (PhaseV::TreeItemFile { m, jobs, job }, EvV::Done { ok, detail }) => v_tree_item_file(
            e,
            m,
            jobs,
            job,
            ok,
            detail,
        ),
        (PhaseV::CopyVerify { m, was_dir }, EvV::Exists { yes }) => v_copy_verify(
            e,
            m,
            was_dir,
            yes,
        ),
        (PhaseV::SourceRemove { m, from_link }, EvV::Removed { ok, detail, .. }) => v_source_remove(
            e,
            m,
            from_link,
            ok,
            detail,
        ),
        (PhaseV::LinkCleanupStat { m }, EvV::Stat { kind, .. }) => v_link_cleanup_stat(e, m, kind),
        (PhaseV::LinkCleanupRemove { m }, EvV::Removed { ok, not_found, detail }) => (
        v_link_cleanup_remove(e, m, ok, not_found, detail)),
        (PhaseV::LinkCreate { m }, EvV::Done { ok, detail }) => v_link_create(e, m, ok, detail),
        _ => v_fail(e, ErrV::Io(Seq::empty())),
    }
}

/// The starting state of a run.
pub open spec fn spec_start(
    source: Seq<char>,
    dest: Seq<char>,
    opts: MoveOptions,
    cwd: Option<Seq<char>>,
) -> EngineV {
    EngineV { source, dest, opts, cwd, phase: PhaseV::StatSource }
}

} // verus!
