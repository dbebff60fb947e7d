//! The move-and-link engine.
//!
//! The engine validates a move, computes the replacement symlink's
//! target, moves the entry (rename, or copy and remove across
//! filesystems) and has the symlink created — but it never touches the
//! filesystem itself.  It is a state machine: `Engine::new` yields the
//! first action, the caller performs it and answers with an event, and
//! `Engine::step` consumes the answer and yields the next action, the
//! outcome, or the error.  Every step is proved to follow the
//! transition function `crate::transition::spec_step`, and the safety
//! statements in `crate::safety` are theorems about that function.

use vstd::prelude::*;

use crate::error::MvlnError;
use crate::path_model::{file_name_of, parent_dir, paths_same, path_is_within, seq_views};
use crate::path_utils::{compute_symlink_target, opt_view};
use crate::transition::{
    exdev_code, spec_start, spec_step, v_decide, v_entry_jobs, v_fail, v_goto_move, v_leaf_or_empty,
    v_next_job, v_parent_nonempty_or_dot, v_parent_raw_or_dot, v_resolved, v_start_link, ActV,
    CtxV, EngineV, ErrV, EvV, JobV, PhaseV, ResV, StepV,
};

verus! {

/// The kind of a filesystem entry, as a non-following stat reports it:
/// a symlink is reported as a symlink, never as what it points to.
#[derive(Clone, Copy, PartialEq, Eq, Structural, Debug)]
pub enum FsKind {
    /// A regular file.
    File,
    /// A real directory.
    Dir,
    /// A symlink, dangling or not.
    Symlink,
    /// Nothing exists at the path.
    Missing,
    /// The stat itself failed (permission, and the like).
    Denied,
}

/// Options for a single move-and-link operation.
#[derive(Clone, Copy, PartialEq, Eq, Structural, Debug)]
pub struct MoveOptions {
    /// Use absolute paths for symlinks instead of relative.
    pub absolute: bool,
    /// Overwrite an existing destination.
    pub force: bool,
    /// Only report what would be done; mutate nothing.
    pub dry_run: bool,
}

impl Default for MoveOptions {
    /// Relative links, no overwriting, a real run.
    fn default() -> (r: MoveOptions)
        ensures
            !r.absolute && !r.force && !r.dry_run,
    {
        MoveOptions { absolute: false, force: false, dry_run: false }
    }
}

/// The outcome of a successful operation.
#[derive(Debug)]
pub struct MoveResult {
    /// The source path, now a symlink (unless the run was dry).
    pub source: String,
    /// The path the entry was moved to.
    pub dest: String,
    /// The text the symlink stores.
    pub symlink_target: String,
}

impl View for MoveResult {
    type V = ResV;

    open spec fn view(&self) -> ResV {
        ResV { source: self.source@, dest: self.dest@, symlink_target: self.symlink_target@ }
    }
}

/// A filesystem action the engine asks its caller to perform.
#[derive(Debug)]
pub enum Action {
    /// Non-following stat; answered with `Event::Stat`.
    StatAt { path: String },
    /// Is this an existing directory (following); `Event::IsDir`.
    IsDirAt { path: String },
    /// Does anything exist here (following); `Event::Exists`.
    ExistsAt { path: String },
    /// Canonicalize the path; `Event::Canon`.
    CanonAt { path: String },
    /// Create the directory and its missing parents; `Event::Done`.
    MkDirsAt { path: String },
    /// Remove one non-directory entry; `Event::Removed`.
    UnlinkAt { path: String },
    /// Remove a directory tree; `Event::Removed`.
    RmTreeAt { path: String },
    /// Atomic rename; `Event::Renamed`.
    RenameAt { from: String, to: String },
    /// Copy one regular file, keeping its modification time where
    /// possible; `Event::Done`.
    CopyFileAt { from: String, to: String },
    /// Read a symlink's stored target; `Event::Link`.
    ReadLinkAt { path: String },
    /// Create a symlink at `link` storing `target`; `Event::Done`.
    MakeLinkAt { target: String, link: String },
    /// List a directory's entry names; `Event::Entries`.
    ReadDirAt { path: String },
}

impl View for Action {
    type V = ActV;

    open spec fn view(&self) -> ActV {
        match self {
            Action::StatAt { path } => ActV::Stat(path@),
            Action::IsDirAt { path } => ActV::IsDir(path@),
            Action::ExistsAt { path } => ActV::Exists(path@),
            Action::CanonAt { path } => ActV::Canon(path@),
            Action::MkDirsAt { path } => ActV::MkDirs(path@),
            Action::UnlinkAt { path } => ActV::Unlink(path@),
            Action::RmTreeAt { path } => ActV::RmTree(path@),
            Action::RenameAt { from, to } => ActV::Rename(from@, to@),
            Action::CopyFileAt { from, to } => ActV::CopyFile(from@, to@),
            Action::ReadLinkAt { path } => ActV::ReadLink(path@),
            Action::MakeLinkAt { target, link } => ActV::MakeLink(target@, link@),
            Action::ReadDirAt { path } => ActV::ReadDir(path@),
        }
    }
}

/// The caller's answer to an action.  `detail` carries the operating
/// system's message when something failed, else it is empty.
#[derive(Debug)]
pub enum Event {
    /// Answer to `StatAt`.
    Stat { kind: FsKind, detail: String },
    /// Answer to `IsDirAt`.
    IsDir { yes: bool },
    /// Answer to `ExistsAt`.
    Exists { yes: bool },
    /// Answer to `CanonAt`: the canonical path when `ok`.
    Canon { ok: bool, path: String },
    /// Answer to `MkDirsAt`, `CopyFileAt` and `MakeLinkAt`.
    Done { ok: bool, detail: String },
    /// Answer to `UnlinkAt` and `RmTreeAt`; `not_found` is set when the
    /// failure was that nothing existed to remove.
    Removed { ok: bool, not_found: bool, detail: String },
    /// Answer to `RenameAt`; `code` is the raw OS error code.
    Renamed { ok: bool, code: Option<i32>, detail: String },
    /// Answer to `ReadLinkAt`: the stored target when `ok`.
    Link { ok: bool, target: String, detail: String },
    /// Answer to `ReadDirAt`: the entry names when `ok`.
    Entries { ok: bool, names: Vec<String>, detail: String },
}

impl View for Event {
    type V = EvV;

    open spec fn view(&self) -> EvV {
        match self {
            Event::Stat { kind, detail } => EvV::Stat { kind: *kind, detail: detail@ },
            Event::IsDir { yes } => EvV::IsDir { yes: *yes },
            Event::Exists { yes } => EvV::Exists { yes: *yes },
            Event::Canon { ok, path } => EvV::Canon { ok: *ok, path: path@ },
            Event::Done { ok, detail } => EvV::Done { ok: *ok, detail: detail@ },
            Event::Removed { ok, not_found, detail } => EvV::Removed {
                ok: *ok,
                not_found: *not_found,
                detail: detail@,
            },
            Event::Renamed { ok, code, detail } => EvV::Renamed {
                ok: *ok,
                code: *code,
                detail: detail@,
            },
            Event::Link { ok, target, detail } => EvV::Link {
                ok: *ok,
                target: target@,
                detail: detail@,
            },
            Event::Entries { ok, names, detail } => EvV::Entries {
                ok: *ok,
                names: seq_views(names@),
                detail: detail@,
            },
        }
    }
}

impl View for MvlnError {
    type V = ErrV;

    open spec fn view(&self) -> ErrV {
        match self {
            MvlnError::SourceNotFound { path } => ErrV::SourceNotFound(path@),
            MvlnError::SourceAccessError { path, reason } => ErrV::SourceAccess(path@, reason@),
            MvlnError::DestinationExists { path } => ErrV::DestinationExists(path@),
            MvlnError::IsDirectory { path } => ErrV::IsDirectory(path@),
            MvlnError::SameSourceAndDest { path } => ErrV::SameSourceAndDest(path@),
            MvlnError::DestinationInsideSource { src, dest } => ErrV::DestinationInsideSource(
                src@,
                dest@,
            ),
            MvlnError::TypeMismatch { src, dest, src_type, dest_type } => ErrV::TypeMismatch(
                src@,
                dest@,
                src_type@,
                dest_type@,
            ),
            MvlnError::MoveFailed { src, dest, reason } => ErrV::MoveFailed(src@, dest@, reason@),
            MvlnError::CopyFailed { src, dest, reason } => ErrV::CopyFailed(src@, dest@, reason@),
            MvlnError::RemoveFailed { src, dest, reason } => ErrV::RemoveFailed(
                src@,
                dest@,
                reason@,
            ),
            MvlnError::SymlinkFailed { link, target, reason } => ErrV::SymlinkFailed(
                link@,
                target@,
                reason@,
            ),
            MvlnError::CreateDirFailed { path, reason } => ErrV::CreateDirFailed(path@, reason@),
            MvlnError::InvalidDestination { reason } => ErrV::InvalidDestination(reason@),
            MvlnError::InvalidPath { path, reason } => ErrV::InvalidPath(path@, reason@),
            MvlnError::GlobExpansionFailed { reason } => ErrV::GlobExpansionFailed(reason@),
            MvlnError::BatchOperationFailed { count } => ErrV::BatchOperationFailed(*count as int),
            MvlnError::Io { reason } => ErrV::Io(reason@),
        }
    }
}

/// What one step hands back: the next action to perform, the outcome,
/// or the error.
#[derive(Debug)]
pub enum Step {
    Do(Action),
    Finish(MoveResult),
    Fail(MvlnError),
}

impl View for Step {
    type V = StepV;

    open spec fn view(&self) -> StepV {
        match self {
            Step::Do(a) => StepV::Do(a@),
            Step::Finish(res) => StepV::Finish(res@),
            Step::Fail(e) => StepV::Fail(e@),
        }
    }
}

/// What the engine remembers once the preflight checks have passed.
pub struct MoveCtx {
    pub resolved: String,
    pub target: String,
    pub source_kind: FsKind,
    pub dest_kind: FsKind,
    pub dest_exists: bool,
}

impl View for MoveCtx {
    type V = CtxV;

    open spec fn view(&self) -> CtxV {
        CtxV {
            resolved: self.resolved@,
            target: self.target@,
            source_kind: self.source_kind,
            dest_kind: self.dest_kind,
            dest_exists: self.dest_exists,
        }
    }
}

/// One pending copy of a directory entry.
pub struct CopyJob {
    pub src: String,
    pub dst: String,
}

impl View for CopyJob {
    type V = JobV;

    open spec fn view(&self) -> JobV {
        JobV { src: self.src@, dst: self.dst@ }
    }
}

/// The views of a vector of copy jobs.
pub open spec fn jobs_view(v: Seq<CopyJob>) -> Seq<JobV> {
    v.map_values(|j: CopyJob| j@)
}

/// The engine's phase; each variant awaits the answer to the action it
/// was emitted with.
pub enum Phase {
    StatSource,
    ResolveDest { source_kind: FsKind },
    CanonSrcSelf { source_kind: FsKind, resolved: String },
    CanonSrcParent { source_kind: FsKind, resolved: String },
    StatResolved { source_kind: FsKind, resolved: String, abs_src: String },
    CanonDstSelf {
        source_kind: FsKind,
        resolved: String,
        abs_src: String,
        dest_kind: FsKind,
        dest_exists: bool,
    },
    CanonDstParent {
        source_kind: FsKind,
        resolved: String,
        abs_src: String,
        dest_kind: FsKind,
        dest_exists: bool,
    },
    ParentCheck { m: MoveCtx, parent: String },
    MkDirs { m: MoveCtx, parent: String },
    OverwriteStat { m: MoveCtx },
    OverwriteRemove { m: MoveCtx, removed_kind: FsKind },
    Renaming { m: MoveCtx },
    CopyStat { m: MoveCtx },
    CopyLinkRead { m: MoveCtx },
    CopyLinkMake { m: MoveCtx },
    CopyFileDone { m: MoveCtx },
    TreeDirCreated { m: MoveCtx, jobs: Vec<CopyJob>, cur_src: String, cur_dst: String },
    TreeEntries { m: MoveCtx, jobs: Vec<CopyJob>, cur_src: String, cur_dst: String },
    TreeItemStat { m: MoveCtx, jobs: Vec<CopyJob>, job: CopyJob },
    TreeItemLink { m: MoveCtx, jobs: Vec<CopyJob>, job: CopyJob },
    TreeItemLinkMake { m: MoveCtx, jobs: Vec<CopyJob>, job: CopyJob },
    TreeItemFile { m: MoveCtx, jobs: Vec<CopyJob>, job: CopyJob },
    CopyVerify { m: MoveCtx, was_dir: bool },
    SourceRemove { m: MoveCtx, from_link: bool },
    LinkCleanupStat { m: MoveCtx },
    LinkCleanupRemove { m: MoveCtx },
    LinkCreate { m: MoveCtx },
    Finished,
}

impl View for Phase {
    type V = PhaseV;

    open spec fn view(&self) -> PhaseV {
        match self {
            Phase::StatSource => PhaseV::StatSource,
            Phase::ResolveDest { source_kind } => PhaseV::ResolveDest { source_kind: *source_kind },
            Phase::CanonSrcSelf { source_kind, resolved } => PhaseV::CanonSrcSelf {
                source_kind: *source_kind,
                resolved: resolved@,
            },
            Phase::CanonSrcParent { source_kind, resolved } => PhaseV::CanonSrcParent {
                source_kind: *source_kind,
                resolved: resolved@,
            },
            Phase::StatResolved { source_kind, resolved, abs_src } => PhaseV::StatResolved {
                source_kind: *source_kind,
                resolved: resolved@,
                abs_src: abs_src@,
            },
            Phase::CanonDstSelf { source_kind, resolved, abs_src, dest_kind, dest_exists } => (
            PhaseV::CanonDstSelf {
                source_kind: *source_kind,
                resolved: resolved@,
                abs_src: abs_src@,
                dest_kind: *dest_kind,
                dest_exists: *dest_exists,
            }),
            Phase::CanonDstParent { source_kind, resolved, abs_src, dest_kind, dest_exists } => (
            PhaseV::CanonDstParent {
                source_kind: *source_kind,
                resolved: resolved@,
                abs_src: abs_src@,
                dest_kind: *dest_kind,
                dest_exists: *dest_exists,
            }),
            Phase::ParentCheck { m, parent } => PhaseV::ParentCheck { m: m@, parent: parent@ },
            Phase::MkDirs { m, parent } => PhaseV::MkDirs { m: m@, parent: parent@ },
            Phase::OverwriteStat { m } => PhaseV::OverwriteStat { m: m@ },
            Phase::OverwriteRemove { m, removed_kind } => PhaseV::OverwriteRemove {
                m: m@,
                removed_kind: *removed_kind,
            },
            Phase::Renaming { m } => PhaseV::Renaming { m: m@ },
            Phase::CopyStat { m } => PhaseV::CopyStat { m: m@ },
            Phase::CopyLinkRead { m } => PhaseV::CopyLinkRead { m: m@ },
            Phase::CopyLinkMake { m } => PhaseV::CopyLinkMake { m: m@ },
            Phase::CopyFileDone { m } => PhaseV::CopyFileDone { m: m@ },
            Phase::TreeDirCreated { m, jobs, cur_src, cur_dst } => PhaseV::TreeDirCreated {
                m: m@,
                jobs: jobs_view(jobs@),
                cur_src: cur_src@,
                cur_dst: cur_dst@,
            },
            Phase::TreeEntries { m, jobs, cur_src, cur_dst } => PhaseV::TreeEntries {
                m: m@,
                jobs: jobs_view(jobs@),
                cur_src: cur_src@,
                cur_dst: cur_dst@,
            },
            Phase::TreeItemStat { m, jobs, job } => PhaseV::TreeItemStat {
                m: m@,
                jobs: jobs_view(jobs@),
                job: job@,
            },
            Phase::TreeItemLink { m, jobs, job } => PhaseV::TreeItemLink {
                m: m@,
                jobs: jobs_view(jobs@),
                job: job@,
            },
            Phase::TreeItemLinkMake { m, jobs, job } => PhaseV::TreeItemLinkMake {
                m: m@,
                jobs: jobs_view(jobs@),
                job: job@,
            },
            Phase::TreeItemFile { m, jobs, job } => PhaseV::TreeItemFile {
                m: m@,
                jobs: jobs_view(jobs@),
                job: job@,
            },
            Phase::CopyVerify { m, was_dir } => PhaseV::CopyVerify { m: m@, was_dir: *was_dir },
            Phase::SourceRemove { m, from_link } => PhaseV::SourceRemove {
                m: m@,
                from_link: *from_link,
            },
            Phase::LinkCleanupStat { m } => PhaseV::LinkCleanupStat { m: m@ },
            Phase::LinkCleanupRemove { m } => PhaseV::LinkCleanupRemove { m: m@ },
            Phase::LinkCreate { m } => PhaseV::LinkCreate { m: m@ },
            Phase::Finished => PhaseV::Finished,
        }
    }
}

/// The move-and-link engine.
pub struct Engine {
    source: String,
    dest: String,
    opts: MoveOptions,
    cwd: Option<String>,
    phase: Phase,
}

impl View for Engine {
    type V = EngineV;

    closed spec fn view(&self) -> EngineV {
        EngineV {
            source: self.source@,
            dest: self.dest@,
            opts: self.opts,
            cwd: opt_view(&self.cwd),
            phase: self.phase@,
        }
    }
}

/// Relies on libc::EXDEV: the cross-device-link errno, 18 on Linux.
#[verifier::external_body]
fn exdev_errno() -> (r: i32)
    ensures
        r == exdev_code(),
{
    libc::EXDEV
}

/// The text `.`.
fn dot_string() -> (r: String)
    ensures
        r@ == seq!['.'],
{
    let mut s = String::new();
    s.append(".");
    proof {
        reveal_strlit(".");
        assert(s@ =~= seq!['.']);
    }
    s
}

/// A prefix text followed by a detail text.
fn with_prefix(prefix: &str, detail: &String) -> (r: String)
    ensures
        r@ == prefix@ + detail@,
{
    let mut s = String::new();
    s.append(prefix);
    s.append(detail.as_str());
    proof {
        assert(s@ =~= prefix@ + detail@);
    }
    s
}

/// The parent to canonicalize for a path that is itself a symlink.
fn parent_raw_or_dot(p: &String) -> (r: String)
    ensures
        r@ == v_parent_raw_or_dot(p@),
{
    match parent_dir(p) {
        Option::Some(q) => q,
        Option::None => dot_string(),
    }
}

/// The parent to canonicalize for a path that could not be
/// canonicalized itself.
fn parent_nonempty_or_dot(p: &String) -> (r: String)
    ensures
        r@ == v_parent_nonempty_or_dot(p@),
{
    match parent_dir(p) {
        Option::Some(q) => {
            if q.as_str().unicode_len() == 0 {
                dot_string()
            } else {
                q
            }
        },
        Option::None => dot_string(),
    }
}

/// The last component of a path, or the empty text.
fn leaf_or_empty(p: &String) -> (r: String)
    ensures
        r@ == v_leaf_or_empty(p@),
{
    match file_name_of(p) {
        Option::Some(n) => n,
        Option::None => String::new(),
    }
}

/// Resolve the effective destination: a destination that is an
/// existing directory receives the source's last component.
pub fn resolve_destination(source: &String, dest: &String, dest_is_dir: bool) -> (r: String)
    ensures
        r@ == v_resolved(source@, dest@, dest_is_dir),
{
    if dest_is_dir {
        match file_name_of(source) {
            Option::Some(n) => crate::path_model::join_path(dest, &n),
            Option::None => dest.clone(),
        }
    } else {
        dest.clone()
    }
}

/// End the run with an error.
fn mk_fail(
    Ghost(ge): Ghost<EngineV>,
    source: String,
    dest: String,
    opts: MoveOptions,
    cwd: Option<String>,
    err: MvlnError,
) -> (r: (Engine, Step))
    requires
        ge.source == source@,
        ge.dest == dest@,
        ge.opts == opts,
        ge.cwd == opt_view(&cwd),
    ensures
        r.0@ == v_fail(ge, err@).0,
        r.1@ == v_fail(ge, err@).1,
{
    let eng = Engine { source, dest, opts, cwd, phase: Phase::Finished };
    proof {
        assert(eng@ =~= EngineV { phase: PhaseV::Finished, ..ge });
    }
    (eng, Step::Fail(err))
}

/// Go on: take the given phase and emit the given action.
fn mk_next(
    Ghost(ge): Ghost<EngineV>,
    source: String,
    dest: String,
    opts: MoveOptions,
    cwd: Option<String>,
    phase: Phase,
    act: Action,
) -> (r: (Engine, Step))
    requires
        ge.source == source@,
        ge.dest == dest@,
        ge.opts == opts,
        ge.cwd == opt_view(&cwd),
    ensures
        r.0@ == (EngineV { phase: phase@, ..ge }),
        r.1@ == StepV::Do(act@),
{
    let eng = Engine { source, dest, opts, cwd, phase };
    proof {
        assert(eng@ =~= EngineV { phase: eng.phase@, ..ge });
    }
    (eng, Step::Do(act))
}

/// Begin the move itself: remove the old destination first when
/// overwriting, else rename at once.
fn go_move(
    Ghost(ge): Ghost<EngineV>,
    source: String,
    dest: String,
    opts: MoveOptions,
    cwd: Option<String>,
    m: MoveCtx,
) -> (r: (Engine, Step))
    requires
        ge.source == source@,
        ge.dest == dest@,
        ge.opts == opts,
        ge.cwd == opt_view(&cwd),
    ensures
        r.0@ == v_goto_move(ge, m@).0,
        r.1@ == v_goto_move(ge, m@).1,
{
    if m.dest_exists && opts.force {
        let path = m.resolved.clone();
        mk_next(
            Ghost(ge),
            source,
            dest,
            opts,
            cwd,
            Phase::OverwriteStat { m },
            Action::StatAt { path },
        )
    } else {
        let from = source.clone();
        let to = m.resolved.clone();
        mk_next(
            Ghost(ge),
            source,
            dest,
            opts,
            cwd,
            Phase::Renaming { m },
            Action::RenameAt { from, to },
        )
    }
}

/// Begin the linking phase: look at what is left at the source path.
fn go_link(
    Ghost(ge): Ghost<EngineV>,
    source: String,
    dest: String,
    opts: MoveOptions,
    cwd: Option<String>,
    m: MoveCtx,
) -> (r: (Engine, Step))
    requires
        ge.source == source@,
        ge.dest == dest@,
        ge.opts == opts,
        ge.cwd == opt_view(&cwd),
    ensures
        r.0@ == v_start_link(ge, m@).0,
        r.1@ == v_start_link(ge, m@).1,
{
    let path = source.clone();
    mk_next(
        Ghost(ge),
        source,
        dest,
        opts,
        cwd,
        Phase::LinkCleanupStat { m },
        Action::StatAt { path },
    )
}

/// Take the next pending copy job, or go verify the copied tree.
fn go_next_job(
    Ghost(ge): Ghost<EngineV>,
    source: String,
    dest: String,
    opts: MoveOptions,
    cwd: Option<String>,
    m: MoveCtx,
    jobs: Vec<CopyJob>,
) -> (r: (Engine, Step))
    requires
        ge.source == source@,
        ge.dest == dest@,
        ge.opts == opts,
        ge.cwd == opt_view(&cwd),
    ensures
        r.0@ == v_next_job(ge, m@, jobs_view(jobs@)).0,
        r.1@ == v_next_job(ge, m@, jobs_view(jobs@)).1,
{
    let mut jobs = jobs;
    let ghost all = jobs_view(jobs@);
    match jobs.pop() {
        Option::Some(job) => {
            proof {
                assert(job@ == all.last());
                assert(jobs_view(jobs@) =~= all.drop_last());
            }
            let path = job.src.clone();
            mk_next(
                Ghost(ge),
                source,
                dest,
                opts,
                cwd,
                Phase::TreeItemStat { m, jobs, job },
                Action::StatAt { path },
            )
        },
        Option::None => {
            proof {
                assert(all.len() == 0);
            }
            let path = m.resolved.clone();
            mk_next(
                Ghost(ge),
                source,
                dest,
                opts,
                cwd,
                Phase::CopyVerify { m, was_dir: true },
                Action::ExistsAt { path },
            )
        },
    }
}

/// Queue one copy job per entry name, in reverse so that taking from
/// the end walks them in their listed order.
fn queue_entry_jobs(
    cur_src: &String,
    cur_dst: &String,
    names: &Vec<String>,
    jobs: &mut Vec<CopyJob>,
)
    ensures
        jobs_view(final(jobs)@) == jobs_view(old(jobs)@) + v_entry_jobs(
            cur_src@,
            cur_dst@,
            seq_views(names@),
        ),
{
    let ghost base = jobs_view(jobs@);
    let ghost added = v_entry_jobs(cur_src@, cur_dst@, seq_views(names@));
    let mut idx: usize = names.len();
    while idx > 0
        invariant
            idx <= names@.len(),
            added == v_entry_jobs(cur_src@, cur_dst@, seq_views(names@)),
            base.len() <= jobs_view(jobs@).len(),
            jobs_view(jobs@) =~= base + added.take(names@.len() - idx),
        decreases idx,
    {
        idx = idx - 1;
        let job = CopyJob {
            src: crate::path_model::join_path(cur_src, &names[idx]),
            dst: crate::path_model::join_path(cur_dst, &names[idx]),
        };
        let ghost before = jobs_view(jobs@);
        jobs.push(job);
        proof {
            assert(jobs_view(jobs@) =~= before.push(
                JobV {
                    src: crate::path_model::spec_join(cur_src@, seq_views(names@)[idx as int]),
                    dst: crate::path_model::spec_join(cur_dst@, seq_views(names@)[idx as int]),
                },
            ));
            assert(added[names@.len() - idx - 1] == JobV {
                src: crate::path_model::spec_join(cur_src@, seq_views(names@)[idx as int]),
                dst: crate::path_model::spec_join(cur_dst@, seq_views(names@)[idx as int]),
            });
            assert(jobs_view(jobs@) =~= base + added.take(names@.len() - idx));
        }
    }
    proof {
        assert(added.take(names@.len() as int) =~= added);
    }
}

/// The preflight verdict and what follows it.
fn decide(
    Ghost(ge): Ghost<EngineV>,
    source: String,
    dest: String,
    opts: MoveOptions,
    cwd: Option<String>,
    source_kind: FsKind,
    resolved: String,
    abs_src: String,
    abs_dst: String,
    dest_kind: FsKind,
    dest_exists: bool,
) -> (r: (Engine, Step))
    requires
        ge.source == source@,
        ge.dest == dest@,
        ge.opts == opts,
        ge.cwd == opt_view(&cwd),
    ensures
        r.0@ == v_decide(ge, source_kind, resolved@, abs_src@, abs_dst@, dest_kind, dest_exists).0,
        r.1@ == v_decide(ge, source_kind, resolved@, abs_src@, abs_dst@, dest_kind, dest_exists).1,
{
    if paths_same(&abs_src, &abs_dst) {
        let err = MvlnError::SameSourceAndDest { path: source.clone() };
        mk_fail(Ghost(ge), source, dest, opts, cwd, err)
    } else if source_kind == FsKind::Dir && path_is_within(&abs_dst, &abs_src) {
        let err = MvlnError::DestinationInsideSource { src: source.clone(), dest: resolved };
        mk_fail(Ghost(ge), source, dest, opts, cwd, err)
    } else if dest_exists && !opts.force {
        let err = MvlnError::DestinationExists { path: resolved };
        mk_fail(Ghost(ge), source, dest, opts, cwd, err)
    } else {
        let target = compute_symlink_target(&source, &resolved, opts.absolute, &cwd);
        if opts.dry_run {
            let res = MoveResult {
                source: source.clone(),
                dest: resolved,
                symlink_target: target,
            };
            let eng = Engine { source, dest, opts, cwd, phase: Phase::Finished };
            proof {
                assert(eng@ =~= EngineV { phase: PhaseV::Finished, ..ge });
            }
            (eng, Step::Finish(res))
        } else {
            let m = MoveCtx { resolved, target, source_kind, dest_kind, dest_exists };
            match parent_dir(&m.resolved) {
                Option::Some(parent) => {
                    let path = parent.clone();
                    mk_next(
                        Ghost(ge),
                        source,
                        dest,
                        opts,
                        cwd,
                        Phase::ParentCheck { m, parent },
                        Action::ExistsAt { path },
                    )
                },
                Option::None => go_move(Ghost(ge), source, dest, opts, cwd, m),
            }
        }
    }
}

/// The phases handled by `step_preflight`.
pub open spec fn pre_phase(p: PhaseV) -> bool {
    ||| p matches PhaseV::StatSource
    ||| p matches PhaseV::ResolveDest { .. }
    ||| p matches PhaseV::CanonSrcSelf { .. }
    ||| p matches PhaseV::CanonSrcParent { .. }
    ||| p matches PhaseV::StatResolved { .. }
    ||| p matches PhaseV::CanonDstSelf { .. }
    ||| p matches PhaseV::CanonDstParent { .. }
}

/// The phases handled by `step_mutate`.
pub open spec fn mutate_phase(p: PhaseV) -> bool {
    ||| p matches PhaseV::ParentCheck { .. }
    ||| p matches PhaseV::MkDirs { .. }
    ||| p matches PhaseV::OverwriteStat { .. }
    ||| p matches PhaseV::OverwriteRemove { .. }
    ||| p matches PhaseV::Renaming { .. }
    ||| p matches PhaseV::CopyStat { .. }
    ||| p matches PhaseV::CopyLinkRead { .. }
    ||| p matches PhaseV::CopyLinkMake { .. }
    ||| p matches PhaseV::CopyFileDone { .. }
}

/// The phases handled by `step_tree`.
pub open spec fn tree_phase(p: PhaseV) -> bool {
    ||| p matches PhaseV::TreeDirCreated { .. }
    ||| p matches PhaseV::TreeEntries { .. }
    ||| p matches PhaseV::TreeItemStat { .. }
    ||| p matches PhaseV::TreeItemLink { .. }
    ||| p matches PhaseV::TreeItemLinkMake { .. }
    ||| p matches PhaseV::TreeItemFile { .. }
    ||| p matches PhaseV::CopyVerify { .. }
}

/// The phases handled by `step_link`.
pub open spec fn link_phase(p: PhaseV) -> bool {
    ||| p matches PhaseV::SourceRemove { .. }
    ||| p matches PhaseV::LinkCleanupStat { .. }
    ||| p matches PhaseV::LinkCleanupRemove { .. }
    ||| p matches PhaseV::LinkCreate { .. }
    ||| p matches PhaseV::Finished
}

/// Steps for the preflight phases: stats, destination resolution and
/// the canonical forms.
#[verifier::rlimit(100)]
fn step_preflight(
    Ghost(ge): Ghost<EngineV>,
    source: String,
    dest: String,
    opts: MoveOptions,
    cwd: Option<String>,
    phase: Phase,
    ev: Event,
) -> (r: (Engine, Step))
    requires
        ge.source == source@,
        ge.dest == dest@,
        ge.opts == opts,
        ge.cwd == opt_view(&cwd),
        ge.phase == phase@,
        pre_phase(phase@),
    ensures
        r.0@ == spec_step(ge, ev@).0,
        r.1@ == spec_step(ge, ev@).1,
{
    match (phase, ev) {
        (Phase::StatSource, Event::Stat { kind, detail }) => {
            if kind == FsKind::Missing {
                let err = MvlnError::SourceNotFound { path: source.clone() };
                mk_fail(Ghost(ge), source, dest, opts, cwd, err)
            } else if kind == FsKind::Denied {
                let err = MvlnError::SourceAccessError { path: source.clone(), reason: detail };
                mk_fail(Ghost(ge), source, dest, opts, cwd, err)
            } else {
                let path = dest.clone();
                mk_next(
                    Ghost(ge),
                    source,
                    dest,
                    opts,
                    cwd,
                    Phase::ResolveDest { source_kind: kind },
                    Action::IsDirAt { path },
                )
            }
        },
        (Phase::ResolveDest { source_kind }, Event::IsDir { yes }) => {
            let resolved = resolve_destination(&source, &dest, yes);
            if source_kind == FsKind::Symlink {
                let path = parent_raw_or_dot(&source);
                mk_next(
                    Ghost(ge),
                    source,
                    dest,
                    opts,
                    cwd,
                    Phase::CanonSrcParent { source_kind, resolved },
                    Action::CanonAt { path },
                )
            } else {
                let path = source.clone();
                mk_next(
                    Ghost(ge),
                    source,
                    dest,
                    opts,
                    cwd,
                    Phase::CanonSrcSelf { source_kind, resolved },
                    Action::CanonAt { path },
                )
            }
        },
        (Phase::CanonSrcSelf { source_kind, resolved }, Event::Canon { ok, path }) => {
            if ok {
                let stat_path = resolved.clone();
                mk_next(
                    Ghost(ge),
                    source,
                    dest,
                    opts,
                    cwd,
                    Phase::StatResolved { source_kind, resolved, abs_src: path },
                    Action::StatAt { path: stat_path },
                )
            } else {
                let parent = parent_nonempty_or_dot(&source);
                mk_next(
                    Ghost(ge),
                    source,
                    dest,
                    opts,
                    cwd,
                    Phase::CanonSrcParent { source_kind, resolved },
                    Action::CanonAt { path: parent },
                )
            }
        },
        (Phase::CanonSrcParent { source_kind, resolved }, Event::Canon { ok, path }) => {
            let abs_src = if ok {
                let leaf = leaf_or_empty(&source);
                crate::path_model::join_path(&path, &leaf)
            } else {
                source.clone()
            };
            let stat_path = resolved.clone();
            mk_next(
                Ghost(ge),
                source,
                dest,
                opts,
                cwd,
                Phase::StatResolved { source_kind, resolved, abs_src },
                Action::StatAt { path: stat_path },
            )
        },
        (Phase::StatResolved { source_kind, resolved, abs_src }, Event::Stat { kind, .. }) => {
            let dest_exists = kind != FsKind::Missing && kind != FsKind::Denied;
            if kind == FsKind::Symlink {
                let path = parent_raw_or_dot(&resolved);
                mk_next(
                    Ghost(ge),
                    source,
                    dest,
                    opts,
                    cwd,
                    Phase::CanonDstParent {
                        source_kind,
                        resolved,
                        abs_src,
                        dest_kind: kind,
                        dest_exists,
                    },
                    Action::CanonAt { path },
                )
            } else {
                let path = resolved.clone();
                mk_next(
                    Ghost(ge),
                    source,
                    dest,
                    opts,
                    cwd,
                    Phase::CanonDstSelf {
                        source_kind,
                        resolved,
                        abs_src,
                        dest_kind: kind,
                        dest_exists,
                    },
                    Action::CanonAt { path },
                )
            }
        },
        (
            Phase::CanonDstSelf { source_kind, resolved, abs_src, dest_kind, dest_exists },
            Event::Canon { ok, path },
        ) => {
            if ok {
                decide(
                    Ghost(ge),
                    source,
                    dest,
                    opts,
                    cwd,
                    source_kind,
                    resolved,
                    abs_src,
                    path,
                    dest_kind,
                    dest_exists,
                )
            } else {
                let parent = parent_nonempty_or_dot(&resolved);
                mk_next(
                    Ghost(ge),
                    source,
                    dest,
                    opts,
                    cwd,
                    Phase::CanonDstParent {
                        source_kind,
                        resolved,
                        abs_src,
                        dest_kind,
                        dest_exists,
                    },
                    Action::CanonAt { path: parent },
                )
            }
        },
        (
            Phase::CanonDstParent { source_kind, resolved, abs_src, dest_kind, dest_exists },
            Event::Canon { ok, path },
        ) => {
            let abs_dst = if ok {
                let leaf = leaf_or_empty(&resolved);
                crate::path_model::join_path(&path, &leaf)
            } else {
                resolved.clone()
            };
            decide(
                Ghost(ge),
                source,
                dest,
                opts,
                cwd,
                source_kind,
                resolved,
                abs_src,
                abs_dst,
                dest_kind,
                dest_exists,
            )
        },
        (phase, _) => {
            let err = MvlnError::Io { reason: String::new() };
            let eng = Engine { source, dest, opts, cwd, phase: Phase::Finished };
            proof {
                assert(eng@ =~= EngineV { phase: PhaseV::Finished, ..ge });
            }
            (eng, Step::Fail(err))
        },
    }
}


/// Steps for the mutation phases up to the move itself.
#[verifier::rlimit(100)]
fn step_mutate(
    Ghost(ge): Ghost<EngineV>,
    source: String,
    dest: String,
    opts: MoveOptions,
    cwd: Option<String>,
    phase: Phase,
    ev: Event,
) -> (r: (Engine, Step))
    requires
        ge.source == source@,
        ge.dest == dest@,
        ge.opts == opts,
        ge.cwd == opt_view(&cwd),
        ge.phase == phase@,
        mutate_phase(phase@),
    ensures
        r.0@ == spec_step(ge, ev@).0,
        r.1@ == spec_step(ge, ev@).1,
{
    match (phase, ev) {
        (Phase::ParentCheck { m, parent }, Event::Exists { yes }) => {
            if yes {
                go_move(Ghost(ge), source, dest, opts, cwd, m)
            } else {
                let path = parent.clone();
                mk_next(
                    Ghost(ge),
                    source,
                    dest,
                    opts,
                    cwd,
                    Phase::MkDirs { m, parent },
                    Action::MkDirsAt { path },
                )
            }
        },
        (Phase::MkDirs { m, parent }, Event::Done { ok, detail }) => {
            if ok {
                go_move(Ghost(ge), source, dest, opts, cwd, m)
            } else {
                let err = MvlnError::CreateDirFailed { path: parent, reason: detail };
                mk_fail(Ghost(ge), source, dest, opts, cwd, err)
            }
        },
        (Phase::OverwriteStat { m }, Event::Stat { kind, .. }) => {
            let path = m.resolved.clone();
            if kind == FsKind::Dir {
                mk_next(
                    Ghost(ge),
                    source,
                    dest,
                    opts,
                    cwd,
                    Phase::OverwriteRemove { m, removed_kind: kind },
                    Action::RmTreeAt { path },
                )
            } else {
                mk_next(
                    Ghost(ge),
                    source,
                    dest,
                    opts,
                    cwd,
                    Phase::OverwriteRemove { m, removed_kind: kind },
                    Action::UnlinkAt { path },
                )
            }
        },
        (Phase::OverwriteRemove { m, removed_kind }, Event::Removed { ok, detail, .. }) => {
            if ok {
                let from = source.clone();
                let to = m.resolved.clone();
                mk_next(
                    Ghost(ge),
                    source,
                    dest,
                    opts,
                    cwd,
                    Phase::Renaming { m },
                    Action::RenameAt { from, to },
                )
            } else {
                let reason = if removed_kind == FsKind::Symlink {
                    with_prefix("failed to remove existing symlink: ", &detail)
                } else if removed_kind == FsKind::Dir {
                    with_prefix("failed to remove existing directory: ", &detail)
                } else {
                    with_prefix("failed to remove existing file: ", &detail)
                };
                let err = MvlnError::MoveFailed {
                    src: source.clone(),
                    dest: m.resolved.clone(),
                    reason,
                };
                mk_fail(Ghost(ge), source, dest, opts, cwd, err)
            }
        },
        (Phase::Renaming { m }, Event::Renamed { ok, code, detail }) => {
            if ok {
                go_link(Ghost(ge), source, dest, opts, cwd, m)
            } else {
                let cross = match code {
                    Option::Some(c) => c == exdev_errno(),
                    Option::None => false,
                };
                if cross {
                    let path = source.clone();
                    mk_next(
                        Ghost(ge),
                        source,
                        dest,
                        opts,
                        cwd,
                        Phase::CopyStat { m },
                        Action::StatAt { path },
                    )
                } else {
                    let err = MvlnError::MoveFailed {
                        src: source.clone(),
                        dest: m.resolved.clone(),
                        reason: detail,
                    };
                    mk_fail(Ghost(ge), source, dest, opts, cwd, err)
                }
            }
        },
        (Phase::CopyStat { m }, Event::Stat { kind, .. }) => {
            if kind == FsKind::Symlink {
                let path = source.clone();
                mk_next(
                    Ghost(ge),
                    source,
                    dest,
                    opts,
                    cwd,
                    Phase::CopyLinkRead { m },
                    Action::ReadLinkAt { path },
                )
            } else if kind == FsKind::Dir {
                let cur_src = source.clone();
                let cur_dst = m.resolved.clone();
                let path = m.resolved.clone();
                mk_next(
                    Ghost(ge),
                    source,
                    dest,
                    opts,
                    cwd,
                    Phase::TreeDirCreated { m, jobs: Vec::new(), cur_src, cur_dst },
                    Action::MkDirsAt { path },
                )
            } else {
                let from = source.clone();
                let to = m.resolved.clone();
                mk_next(
                    Ghost(ge),
                    source,
                    dest,
                    opts,
                    cwd,
                    Phase::CopyFileDone { m },
                    Action::CopyFileAt { from, to },
                )
            }
        },
        (Phase::CopyLinkRead { m }, Event::Link { ok, target, detail }) => {
            if ok {
                let link = m.resolved.clone();
                mk_next(
                    Ghost(ge),
                    source,
                    dest,
                    opts,
                    cwd,
                    Phase::CopyLinkMake { m },
                    Action::MakeLinkAt { target, link },
                )
            } else {
                let err = MvlnError::CopyFailed {
                    src: source.clone(),
                    dest: m.resolved.clone(),
                    reason: with_prefix("failed to read symlink: ", &detail),
                };
                mk_fail(Ghost(ge), source, dest, opts, cwd, err)
            }
        },
        (Phase::CopyLinkMake { m }, Event::Done { ok, detail }) => {
            if ok {
                let path = source.clone();
                mk_next(
                    Ghost(ge),
                    source,
                    dest,
                    opts,
                    cwd,
                    Phase::SourceRemove { m, from_link: true },
                    Action::UnlinkAt { path },
                )
            } else {
                let err = MvlnError::CopyFailed {
                    src: source.clone(),
                    dest: m.resolved.clone(),
                    reason: with_prefix("failed to create symlink: ", &detail),
                };
                mk_fail(Ghost(ge), source, dest, opts, cwd, err)
            }
        },
        (Phase::CopyFileDone { m }, Event::Done { ok, detail }) => {
            if ok {
                let path = m.resolved.clone();
                mk_next(
                    Ghost(ge),
                    source,
                    dest,
                    opts,
                    cwd,
                    Phase::CopyVerify { m, was_dir: false },
                    Action::ExistsAt { path },
                )
            } else {
                let err = MvlnError::CopyFailed {
                    src: source.clone(),
                    dest: m.resolved.clone(),
                    reason: detail,
                };
                mk_fail(Ghost(ge), source, dest, opts, cwd, err)
            }
        },
        (phase, _) => {
            let err = MvlnError::Io { reason: String::new() };
            let eng = Engine { source, dest, opts, cwd, phase: Phase::Finished };
            proof {
                assert(eng@ =~= EngineV { phase: PhaseV::Finished, ..ge });
            }
            (eng, Step::Fail(err))
        },
    }
}


/// Steps for the directory-tree copy and its verification.
#[verifier::rlimit(100)]
fn step_tree(
    Ghost(ge): Ghost<EngineV>,
    source: String,
    dest: String,
    opts: MoveOptions,
    cwd: Option<String>,
    phase: Phase,
    ev: Event,
) -> (r: (Engine, Step))
    requires
        ge.source == source@,
        ge.dest == dest@,
        ge.opts == opts,
        ge.cwd == opt_view(&cwd),
        ge.phase == phase@,
        tree_phase(phase@),
    ensures
        r.0@ == spec_step(ge, ev@).0,
        r.1@ == spec_step(ge, ev@).1,
{
    match (phase, ev) {
        (Phase::TreeDirCreated { m, jobs, cur_src, cur_dst }, Event::Done { ok, detail }) => {
            if ok {
                let path = cur_src.clone();
                mk_next(
                    Ghost(ge),
                    source,
                    dest,
                    opts,
                    cwd,
                    Phase::TreeEntries { m, jobs, cur_src, cur_dst },
                    Action::ReadDirAt { path },
                )
            } else {
                let err = MvlnError::CreateDirFailed { path: cur_dst, reason: detail };
                mk_fail(Ghost(ge), source, dest, opts, cwd, err)
            }
        },
        (
            Phase::TreeEntries { m, jobs, cur_src, cur_dst },
            Event::Entries { ok, names, detail },
        ) => {
            if ok {
                let mut jobs = jobs;
                queue_entry_jobs(&cur_src, &cur_dst, &names, &mut jobs);
                go_next_job(Ghost(ge), source, dest, opts, cwd, m, jobs)
            } else {
                let err = MvlnError::CopyFailed { src: cur_src, dest: cur_dst, reason: detail };
                mk_fail(Ghost(ge), source, dest, opts, cwd, err)
            }
        },
        (Phase::TreeItemStat { m, jobs, job }, Event::Stat { kind, .. }) => {
            if kind == FsKind::Symlink {
                let path = job.src.clone();
                mk_next(
                    Ghost(ge),
                    source,
                    dest,
                    opts,
                    cwd,
                    Phase::TreeItemLink { m, jobs, job },
                    Action::ReadLinkAt { path },
                )
            } else if kind == FsKind::Dir {
                let path = job.dst.clone();
                mk_next(
                    Ghost(ge),
                    source,
                    dest,
                    opts,
                    cwd,
                    Phase::TreeDirCreated { m, jobs, cur_src: job.src, cur_dst: job.dst },
                    Action::MkDirsAt { path },
                )
            } else {
                let from = job.src.clone();
                let to = job.dst.clone();
                mk_next(
                    Ghost(ge),
                    source,
                    dest,
                    opts,
                    cwd,
                    Phase::TreeItemFile { m, jobs, job },
                    Action::CopyFileAt { from, to },
                )
            }
        },
        (Phase::TreeItemLink { m, jobs, job }, Event::Link { ok, target, detail }) => {
            if ok {
                let link = job.dst.clone();
                mk_next(
                    Ghost(ge),
                    source,
                    dest,
                    opts,
                    cwd,
                    Phase::TreeItemLinkMake { m, jobs, job },
                    Action::MakeLinkAt { target, link },
                )
            } else {
                let err = MvlnError::CopyFailed {
                    src: job.src,
                    dest: job.dst,
                    reason: with_prefix("failed to read symlink: ", &detail),
                };
                mk_fail(Ghost(ge), source, dest, opts, cwd, err)
            }
        },
        (Phase::TreeItemLinkMake { m, jobs, job }, Event::Done { ok, detail }) => {
            if ok {
                go_next_job(Ghost(ge), source, dest, opts, cwd, m, jobs)
            } else {
                let err = MvlnError::CopyFailed {
                    src: job.src,
                    dest: job.dst,
                    reason: with_prefix("failed to create symlink: ", &detail),
                };
                mk_fail(Ghost(ge), source, dest, opts, cwd, err)
            }
        },
        (Phase::TreeItemFile { m, jobs, job }, Event::Done { ok, detail }) => {
            if ok {
                go_next_job(Ghost(ge), source, dest, opts, cwd, m, jobs)
            } else {
                let err = MvlnError::CopyFailed { src: job.src, dest: job.dst, reason: detail };
                mk_fail(Ghost(ge), source, dest, opts, cwd, err)
            }
        },
        (Phase::CopyVerify { m, was_dir }, Event::Exists { yes }) => {
            if yes {
                let path = source.clone();
                if was_dir {
                    mk_next(
                        Ghost(ge),
                        source,
                        dest,
                        opts,
                        cwd,
                        Phase::SourceRemove { m, from_link: false },
                        Action::RmTreeAt { path },
                    )
                } else {
                    mk_next(
                        Ghost(ge),
                        source,
                        dest,
                        opts,
                        cwd,
                        Phase::SourceRemove { m, from_link: false },
                        Action::UnlinkAt { path },
                    )
                }
            } else {
                let mut reason = String::new();
                reason.append("destination not found after copy");
                proof {
                    assert(reason@ =~= "destination not found after copy"@);
                }
                let err = MvlnError::CopyFailed {
                    src: source.clone(),
                    dest: m.resolved.clone(),
                    reason,
                };
                mk_fail(Ghost(ge), source, dest, opts, cwd, err)
            }
        },
        (phase, _) => {
            let err = MvlnError::Io { reason: String::new() };
            let eng = Engine { source, dest, opts, cwd, phase: Phase::Finished };
            proof {
                assert(eng@ =~= EngineV { phase: PhaseV::Finished, ..ge });
            }
            (eng, Step::Fail(err))
        },
    }
}


/// Steps for the source removal and the linking phases.
#[verifier::rlimit(100)]
fn step_link(
    Ghost(ge): Ghost<EngineV>,
    source: String,
    dest: String,
    opts: MoveOptions,
    cwd: Option<String>,
    phase: Phase,
    ev: Event,
) -> (r: (Engine, Step))
    requires
        ge.source == source@,
        ge.dest == dest@,
        ge.opts == opts,
        ge.cwd == opt_view(&cwd),
        ge.phase == phase@,
        link_phase(phase@),
    ensures
        r.0@ == spec_step(ge, ev@).0,
        r.1@ == spec_step(ge, ev@).1,
{
    match (phase, ev) {
        (Phase::SourceRemove { m, from_link }, Event::Removed { ok, detail, .. }) => {
            if ok {
                go_link(Ghost(ge), source, dest, opts, cwd, m)
            } else {
                let reason = if from_link {
                    with_prefix("failed to remove symlink: ", &detail)
                } else {
                    detail
                };
                let err = MvlnError::RemoveFailed {
                    src: source.clone(),
                    dest: m.resolved.clone(),
                    reason,
                };
                mk_fail(Ghost(ge), source, dest, opts, cwd, err)
            }
        },
        (Phase::LinkCleanupStat { m }, Event::Stat { kind, .. }) => {
            if kind == FsKind::Missing {
                let target = m.target.clone();
                let link = source.clone();
                mk_next(
                    Ghost(ge),
                    source,
                    dest,
                    opts,
                    cwd,
                    Phase::LinkCreate { m },
                    Action::MakeLinkAt { target, link },
                )
            } else {
                let path = source.clone();
                mk_next(
                    Ghost(ge),
                    source,
                    dest,
                    opts,
                    cwd,
                    Phase::LinkCleanupRemove { m },
                    Action::UnlinkAt { path },
                )
            }
        },
        (Phase::LinkCleanupRemove { m }, Event::Removed { ok, not_found, detail }) => {
            if ok || not_found {
                let target = m.target.clone();
                let link = source.clone();
                mk_next(
                    Ghost(ge),
                    source,
                    dest,
                    opts,
                    cwd,
                    Phase::LinkCreate { m },
                    Action::MakeLinkAt { target, link },
                )
            } else {
                let err = MvlnError::SymlinkFailed {
                    link: source.clone(),
                    target: m.resolved.clone(),
                    reason: with_prefix("failed to remove existing file at source: ", &detail),
                };
                mk_fail(Ghost(ge), source, dest, opts, cwd, err)
            }
        },
        (Phase::LinkCreate { m }, Event::Done { ok, detail }) => {
            if ok {
                let res = MoveResult {
                    source: source.clone(),
                    dest: m.resolved,
                    symlink_target: m.target,
                };
                let eng = Engine { source, dest, opts, cwd, phase: Phase::Finished };
                proof {
                    assert(eng@ =~= EngineV { phase: PhaseV::Finished, ..ge });
                }
                (eng, Step::Finish(res))
            } else {
                let err = MvlnError::SymlinkFailed {
                    link: source.clone(),
                    target: m.resolved.clone(),
                    reason: detail,
                };
                mk_fail(Ghost(ge), source, dest, opts, cwd, err)
            }
        },
        (phase, _) => {
            let err = MvlnError::Io { reason: String::new() };
            let eng = Engine { source, dest, opts, cwd, phase: Phase::Finished };
            proof {
                assert(eng@ =~= EngineV { phase: PhaseV::Finished, ..ge });
            }
            (eng, Step::Fail(err))
        },
    }
}

impl Engine {
    /// Start a move of `source` to `dest`.  `cwd` is the caller's
    /// working directory, if known; it is read only when a path must be
    /// made absolute.  The first action is the non-following stat of
    /// the source.
    pub fn new(source: String, dest: String, opts: MoveOptions, cwd: Option<String>) -> (r: (
        Engine,
        Action,
    ))
        ensures
            r.0@ == spec_start(source@, dest@, opts, opt_view(&cwd)),
            r.1@ == ActV::Stat(source@),
    {
        let path = source.clone();
        let eng = Engine { source, dest, opts, cwd, phase: Phase::StatSource };
        (eng, Action::StatAt { path })
    }

    /// Consume the answer to the pending action and move one step:
    /// to the next action, the outcome, or the error.  Every step
    /// follows the transition function `spec_step`.
    pub fn step(self, ev: Event) -> (r: (Engine, Step))
        ensures
            r.0@ == spec_step(self@, ev@).0,
            r.1@ == spec_step(self@, ev@).1,
    {
        let ghost ge = self@;
        let Engine { source, dest, opts, cwd, phase } = self;
        let group: u8 = match &phase {
            Phase::StatSource
            | Phase::ResolveDest { .. }
            | Phase::CanonSrcSelf { .. }
            | Phase::CanonSrcParent { .. }
            | Phase::StatResolved { .. }
            | Phase::CanonDstSelf { .. }
            | Phase::CanonDstParent { .. } => 0,
            Phase::ParentCheck { .. }
            | Phase::MkDirs { .. }
            | Phase::OverwriteStat { .. }
            | Phase::OverwriteRemove { .. }
            | Phase::Renaming { .. }
            | Phase::CopyStat { .. }
            | Phase::CopyLinkRead { .. }
            | Phase::CopyLinkMake { .. }
            | Phase::CopyFileDone { .. } => 1,
            Phase::TreeDirCreated { .. }
            | Phase::TreeEntries { .. }
            | Phase::TreeItemStat { .. }
            | Phase::TreeItemLink { .. }
            | Phase::TreeItemLinkMake { .. }
            | Phase::TreeItemFile { .. }
            | Phase::CopyVerify { .. } => 2,
            Phase::SourceRemove { .. }
            | Phase::LinkCleanupStat { .. }
            | Phase::LinkCleanupRemove { .. }
            | Phase::LinkCreate { .. }
            | Phase::Finished => 3,
        };
        if group == 0 {
            step_preflight(Ghost(ge), source, dest, opts, cwd, phase, ev)
        } else if group == 1 {
            step_mutate(Ghost(ge), source, dest, opts, cwd, phase, ev)
        } else if group == 2 {
            step_tree(Ghost(ge), source, dest, opts, cwd, phase, ev)
        } else {
            step_link(Ghost(ge), source, dest, opts, cwd, phase, ev)
        }
    }
}

} // verus!
