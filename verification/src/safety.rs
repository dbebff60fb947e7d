//! The safety theorems of the move-and-link engine.
//!
//! Each theorem is a statement about the transition function
//! `crate::transition::spec_step`, which `Engine::step` is proved to
//! follow; together they pin down the ordering discipline that keeps
//! data from being lost: nothing is mutated before the preflight
//! checks pass, a dry run mutates nothing at all, a symlink
//! destination is unlinked and never recursed into, the copy fallback
//! re-verifies the destination before the source may go, and no
//! transition deletes the source while the moved data is unconfirmed.

use vstd::prelude::*;

use crate::operation::{link_phase, mutate_phase, pre_phase, tree_phase, FsKind, MoveOptions};
use crate::path_model::{path_within, same_path};
use crate::path_utils::spec_compute_target;
use crate::transition::{
    exdev_code, spec_step, v_copy_stat, v_copy_verify, v_decide, v_fail, v_overwrite_stat,
    v_renaming, v_tree_item_stat, ActV, CtxV, EngineV, ErrV, EvV, JobV, PhaseV, ResV, StepV,
};

verus! {

/// Whether an action changes the filesystem.
pub open spec fn mutating(a: ActV) -> bool {
    match a {
        ActV::Stat(_) => false,
        ActV::IsDir(_) => false,
        ActV::Exists(_) => false,
        ActV::Canon(_) => false,
        ActV::ReadLink(_) => false,
        ActV::ReadDir(_) => false,
        ActV::MkDirs(_) => true,
        ActV::Unlink(_) => true,
        ActV::RmTree(_) => true,
        ActV::Rename(_, _) => true,
        ActV::CopyFile(_, _) => true,
        ActV::MakeLink(_, _) => true,
    }
}

/// The engine's state after `i` events, starting from `e`.
pub open spec fn state_at(e: EngineV, evs: Seq<EvV>, i: int) -> EngineV
    decreases i,
{
    if i <= 0 {
        e
    } else {
        spec_step(state_at(e, evs, i - 1), evs[i - 1]).0
    }
}

/// What the engine hands back on the `i`-th event.
pub open spec fn step_at(e: EngineV, evs: Seq<EvV>, i: int) -> StepV {
    spec_step(state_at(e, evs, i), evs[i]).1
}

/// Inputs are kept through the preflight phases.
proof fn keeps_inputs_pre(e: EngineV, ev: EvV)
    requires
        pre_phase(e.phase),
    ensures
        spec_step(e, ev).0.source == e.source,
        spec_step(e, ev).0.dest == e.dest,
        spec_step(e, ev).0.opts == e.opts,
        spec_step(e, ev).0.cwd == e.cwd,
{
}

/// Inputs are kept through the mutation phases.
proof fn keeps_inputs_mutate(e: EngineV, ev: EvV)
    requires
        mutate_phase(e.phase),
    ensures
        spec_step(e, ev).0.source == e.source,
        spec_step(e, ev).0.dest == e.dest,
        spec_step(e, ev).0.opts == e.opts,
        spec_step(e, ev).0.cwd == e.cwd,
{
}

/// Inputs are kept through the tree-copy phases.
proof fn keeps_inputs_tree(e: EngineV, ev: EvV)
    requires
        tree_phase(e.phase),
    ensures
        spec_step(e, ev).0.source == e.source,
        spec_step(e, ev).0.dest == e.dest,
        spec_step(e, ev).0.opts == e.opts,
        spec_step(e, ev).0.cwd == e.cwd,
{
}

/// Inputs are kept through the linking phases.
proof fn keeps_inputs_link(e: EngineV, ev: EvV)
    requires
        link_phase(e.phase),
    ensures
        spec_step(e, ev).0.source == e.source,
        spec_step(e, ev).0.dest == e.dest,
        spec_step(e, ev).0.opts == e.opts,
        spec_step(e, ev).0.cwd == e.cwd,
{
}

/// A step never changes what was asked for: source, destination,
/// options and working directory are carried through unchanged.
pub proof fn lemma_step_keeps_inputs(e: EngineV, ev: EvV)
    ensures
        spec_step(e, ev).0.source == e.source,
        spec_step(e, ev).0.dest == e.dest,
        spec_step(e, ev).0.opts == e.opts,
        spec_step(e, ev).0.cwd == e.cwd,
{
    if pre_phase(e.phase) {
        keeps_inputs_pre(e, ev);
    } else if mutate_phase(e.phase) {
        keeps_inputs_mutate(e, ev);
    } else if tree_phase(e.phase) {
        keeps_inputs_tree(e, ev);
    } else {
        assert(link_phase(e.phase));
        keeps_inputs_link(e, ev);
    }
}

/// What one step hands back counts as read-only when it asks for no
/// mutating action.
pub open spec fn step_is_read_only(s: StepV) -> bool {
    match s {
        StepV::Do(a) => !mutating(a),
        _ => true,
    }
}

/// While the preflight has not passed, the engine mutates nothing: a
/// step from a preflight phase that stays in a preflight phase asks
/// only for read-only actions, a failing step asks for nothing and
/// ends the run at once.  (The one mutating action a preflight phase
/// can emit is the rename itself, at the very step whose verdict
/// passed — and that step leaves the preflight phases.)
pub proof fn lemma_preflight_step_reads_only(e: EngineV, ev: EvV)
    requires
        pre_phase(e.phase),
    ensures
        pre_phase(spec_step(e, ev).0.phase) ==> step_is_read_only(spec_step(e, ev).1),
        (spec_step(e, ev).1 matches StepV::Fail(_)) ==> spec_step(e, ev).0.phase
            == PhaseV::Finished,
{
}

/// Where a preflight step can go: to another preflight phase, to the
/// end of the run (a failure, or a dry run's outcome), or — only once
/// the checks have passed — to the parent-directory check, the
/// overwrite stat, or the rename.
pub proof fn lemma_preflight_closure(e: EngineV, ev: EvV)
    requires
        pre_phase(e.phase),
    ensures
        ({
            ||| pre_phase(spec_step(e, ev).0.phase)
            ||| spec_step(e, ev).0.phase == PhaseV::Finished
            ||| spec_step(e, ev).0.phase matches PhaseV::ParentCheck { .. }
            ||| spec_step(e, ev).0.phase matches PhaseV::OverwriteStat { .. }
            ||| spec_step(e, ev).0.phase matches PhaseV::Renaming { .. }
        }),
{
}

/// Zero-mutation failure: a run that is still in its preflight checks
/// at step `i` has asked for no mutating action before `i`; so a run
/// that fails during preflight — a missing source, a self-move, a
/// containment, an occupied destination — leaves the filesystem
/// untouched.
pub proof fn lemma_preflight_run_reads_only(e: EngineV, evs: Seq<EvV>, i: int)
    requires
        0 <= i < evs.len(),
        forall|j: int| 0 <= j <= i ==> pre_phase(#[trigger] state_at(e, evs, j).phase),
    ensures
        forall|j: int| 0 <= j < i ==> step_is_read_only(#[trigger] step_at(e, evs, j)),
{
    assert forall|j: int| 0 <= j < i implies step_is_read_only(#[trigger] step_at(e, evs, j)) by {
        lemma_preflight_step_reads_only(state_at(e, evs, j), evs[j]);
        assert(state_at(e, evs, j + 1) == spec_step(state_at(e, evs, j), evs[j]).0);
    }
}

/// Self-move rejection: when the source's and the destination's
/// symlink-unaware absolute forms name the same path, the verdict is
/// SameSourceAndDest, carrying the source, and the run is over.  With
/// `lemma_preflight_step_reads_only` nothing was mutated.
pub proof fn lemma_self_move_rejected(
    e: EngineV,
    source_kind: FsKind,
    resolved: Seq<char>,
    abs_form: Seq<char>,
    dest_kind: FsKind,
    dest_exists: bool,
)
    ensures
        v_decide(e, source_kind, resolved, abs_form, abs_form, dest_kind, dest_exists) == v_fail(
            e,
            ErrV::SameSourceAndDest(e.source),
        ),
{
}

/// Self-move rejection, whole run: asking to move an existing file
/// onto its own path — the same text for source and destination, the
/// destination not read as a directory, and the filesystem giving the
/// same canonical answer for both ends — fails with SameSourceAndDest
/// after five read-only steps; nothing was mutated.
pub proof fn lemma_self_move_run(
    p: Seq<char>,
    opts: MoveOptions,
    cwd: Option<Seq<char>>,
    canon_answer: Seq<char>,
    dest_kind: FsKind,
)
    requires
        dest_kind != FsKind::Symlink,
    ensures
        ({
            let e0 = crate::transition::spec_start(p, p, opts, cwd);
            let evs: Seq<EvV> = seq![
                EvV::Stat { kind: FsKind::File, detail: Seq::empty() },
                EvV::IsDir { yes: false },
                EvV::Canon { ok: true, path: canon_answer },
                EvV::Stat { kind: dest_kind, detail: Seq::empty() },
                EvV::Canon { ok: true, path: canon_answer },
            ];
            &&& step_at(e0, evs, 4) == StepV::Fail(ErrV::SameSourceAndDest(p))
            &&& forall|j: int| 0 <= j < 4 ==> step_is_read_only(#[trigger] step_at(e0, evs, j))
        }),
{
    let e0 = crate::transition::spec_start(p, p, opts, cwd);
    let evs: Seq<EvV> = seq![
        EvV::Stat { kind: FsKind::File, detail: Seq::empty() },
        EvV::IsDir { yes: false },
        EvV::Canon { ok: true, path: canon_answer },
        EvV::Stat { kind: dest_kind, detail: Seq::empty() },
        EvV::Canon { ok: true, path: canon_answer },
    ];
    let e1 = spec_step(e0, evs[0]).0;
    let e2 = spec_step(e1, evs[1]).0;
    let e3 = spec_step(e2, evs[2]).0;
    let e4 = spec_step(e3, evs[3]).0;
    assert(state_at(e0, evs, 1) == e1);
    assert(state_at(e0, evs, 2) == e2);
    assert(state_at(e0, evs, 3) == e3);
    assert(state_at(e0, evs, 4) == e4);
    assert(step_is_read_only(step_at(e0, evs, 0)));
    assert(step_is_read_only(step_at(e0, evs, 1)));
    assert(step_is_read_only(step_at(e0, evs, 2)));
    assert(step_is_read_only(step_at(e0, evs, 3)));
    assert(step_at(e0, evs, 4) == StepV::Fail(ErrV::SameSourceAndDest(p)));
}

/// Containment rejection: a real directory source whose resolved
/// destination lies inside it is rejected with
/// DestinationInsideSource, before any copy begins.
pub proof fn lemma_containment_rejected(
    e: EngineV,
    resolved: Seq<char>,
    abs_src: Seq<char>,
    abs_dst: Seq<char>,
    dest_kind: FsKind,
    dest_exists: bool,
)
    requires
        !same_path(abs_src, abs_dst),
        path_within(abs_dst, abs_src),
    ensures
        v_decide(e, FsKind::Dir, resolved, abs_src, abs_dst, dest_kind, dest_exists) == v_fail(
            e,
            ErrV::DestinationInsideSource(e.source, resolved),
        ),
{
}

/// Containment rejection, whole run: asking to move a real directory
/// to a path directly under it — the canonical answer for the
/// destination's parent being the very answer for the source — fails
/// with DestinationInsideSource after six read-only steps, before any
/// copy begins.  `n` is the destination's last component (one plain
/// component, so its split is itself), and the canonical answer does
/// not end in a separator.
pub proof fn lemma_containment_run(
    d: Seq<char>,
    dest: Seq<char>,
    opts: MoveOptions,
    cwd: Option<Seq<char>>,
    canon_answer: Seq<char>,
    n: Seq<char>,
)
    requires
        crate::path_model::spec_file_name(dest) == Option::Some(n),
        crate::path_model::split_comps(n) == seq![n],
        canon_answer.len() > 0,
        canon_answer.last() != '/',
    ensures
        ({
            let e0 = crate::transition::spec_start(d, dest, opts, cwd);
            let evs: Seq<EvV> = seq![
                EvV::Stat { kind: FsKind::Dir, detail: Seq::empty() },
                EvV::IsDir { yes: false },
                EvV::Canon { ok: true, path: canon_answer },
                EvV::Stat { kind: FsKind::Missing, detail: Seq::empty() },
                EvV::Canon { ok: false, path: Seq::empty() },
                EvV::Canon { ok: true, path: canon_answer },
            ];
            &&& step_at(e0, evs, 5) == StepV::Fail(ErrV::DestinationInsideSource(d, dest))
            &&& forall|j: int| 0 <= j < 5 ==> step_is_read_only(#[trigger] step_at(e0, evs, j))
        }),
{
    let e0 = crate::transition::spec_start(d, dest, opts, cwd);
    let evs: Seq<EvV> = seq![
        EvV::Stat { kind: FsKind::Dir, detail: Seq::empty() },
        EvV::IsDir { yes: false },
        EvV::Canon { ok: true, path: canon_answer },
        EvV::Stat { kind: FsKind::Missing, detail: Seq::empty() },
        EvV::Canon { ok: false, path: Seq::empty() },
        EvV::Canon { ok: true, path: canon_answer },
    ];
    let e1 = spec_step(e0, evs[0]).0;
    let e2 = spec_step(e1, evs[1]).0;
    let e3 = spec_step(e2, evs[2]).0;
    let e4 = spec_step(e3, evs[3]).0;
    let e5 = spec_step(e4, evs[4]).0;
    assert(state_at(e0, evs, 1) == e1);
    assert(state_at(e0, evs, 2) == e2);
    assert(state_at(e0, evs, 3) == e3);
    assert(state_at(e0, evs, 4) == e4);
    assert(state_at(e0, evs, 5) == e5);
    let abs_dst = crate::path_model::spec_join(
        canon_answer,
        crate::transition::v_leaf_or_empty(dest),
    );
    crate::path_model::lemma_split_join(canon_answer, n);
    assert(crate::path_model::split_comps(abs_dst) == crate::path_model::split_comps(canon_answer)
        + seq![n]);
    assert(!same_path(abs_dst, canon_answer)) by {
        assert(crate::path_model::split_comps(abs_dst).len() != crate::path_model::split_comps(
            canon_answer,
        ).len());
    }
    assert(path_within(abs_dst, canon_answer)) by {
        assert(crate::path_model::split_comps(canon_answer) =~= crate::path_model::split_comps(
            abs_dst,
        ).take(crate::path_model::split_comps(canon_answer).len() as int));
    }
    assert(step_is_read_only(step_at(e0, evs, 0)));
    assert(step_is_read_only(step_at(e0, evs, 1)));
    assert(step_is_read_only(step_at(e0, evs, 2)));
    assert(step_is_read_only(step_at(e0, evs, 3)));
    assert(step_is_read_only(step_at(e0, evs, 4)));
    assert(step_at(e0, evs, 5) == StepV::Fail(ErrV::DestinationInsideSource(d, dest)));
}

/// Once its preflight checks are decided, a dry run is over: the step
/// fails or reports the outcome, and no mutation phase is entered.
pub proof fn lemma_dry_run_stops_at_verdict(
    e: EngineV,
    source_kind: FsKind,
    resolved: Seq<char>,
    abs_src: Seq<char>,
    abs_dst: Seq<char>,
    dest_kind: FsKind,
    dest_exists: bool,
)
    requires
        e.opts.dry_run,
    ensures
        v_decide(
            e,
            source_kind,
            resolved,
            abs_src,
            abs_dst,
            dest_kind,
            dest_exists,
        ).0.phase == PhaseV::Finished,
        !(v_decide(e, source_kind, resolved, abs_src, abs_dst, dest_kind, dest_exists).1
            matches StepV::Do(_)),
{
}

/// The preflight checks never read the dry-run flag: up to the
/// phases where the verdict falls, two engines that differ only in it
/// walk the same phases and ask for the same actions.  Together with
/// `lemma_dry_run_reports_real_target` this makes the dry run's
/// report exact: same answers, same resolved destination, same
/// symlink target.
pub proof fn lemma_preflight_ignores_dry_run(e1: EngineV, e2: EngineV, ev: EvV)
    requires
        pre_phase(e1.phase),
        !(e1.phase matches PhaseV::CanonDstSelf { .. }),
        !(e1.phase matches PhaseV::CanonDstParent { .. }),
        e1.source == e2.source,
        e1.dest == e2.dest,
        e1.cwd == e2.cwd,
        e1.phase == e2.phase,
    ensures
        spec_step(e1, ev).0.phase == spec_step(e2, ev).0.phase,
        spec_step(e1, ev).1 == spec_step(e2, ev).1,
{
}

/// Idempotent dry run, first half: over a whole run, a dry-run engine
/// never asks for a mutating action, whatever the filesystem answers.
pub proof fn lemma_dry_run_mutates_nothing(e: EngineV, evs: Seq<EvV>, i: int)
    requires
        e.opts.dry_run,
        pre_phase(e.phase) || e.phase == PhaseV::Finished,
        0 <= i < evs.len(),
    ensures
        match step_at(e, evs, i) {
            StepV::Do(a) => !mutating(a),
            _ => true,
        },
    decreases i,
{
    if i == 0 {
        if pre_phase(e.phase) {
            lemma_preflight_step_reads_only(e, evs[0]);
        }
    } else {
        let e1 = spec_step(e, evs[0]).0;
        lemma_step_keeps_inputs(e, evs[0]);
        assert(pre_phase(e1.phase) || e1.phase == PhaseV::Finished);
        lemma_dry_run_mutates_nothing(e1, evs.drop_first(), i - 1);
        assert(state_at(e1, evs.drop_first(), i - 1) == state_at(e, evs, i)) by {
            lemma_state_shift(e, evs, i);
        }
        assert(evs.drop_first()[i - 1] == evs[i]);
    }
}

/// Stepping `i` times from the second state equals stepping `i + 1`
/// times from the first.
proof fn lemma_state_shift(e: EngineV, evs: Seq<EvV>, i: int)
    requires
        1 <= i < evs.len(),
    ensures
        state_at(spec_step(e, evs[0]).0, evs.drop_first(), i - 1) == state_at(e, evs, i),
    decreases i,
{
    if i == 1 {
        assert(state_at(e, evs, 0) == e);
        assert(state_at(e, evs, 1) == spec_step(e, evs[0]).0);
        assert(state_at(spec_step(e, evs[0]).0, evs.drop_first(), 0) == spec_step(e, evs[0]).0);
    } else {
        lemma_state_shift(e, evs, i - 1);
        assert(evs.drop_first()[i - 2] == evs[i - 1]);
        assert(state_at(e, evs, i) == spec_step(state_at(e, evs, i - 1), evs[i - 1]).0);
        assert(state_at(spec_step(e, evs[0]).0, evs.drop_first(), i - 1) == spec_step(
            state_at(spec_step(e, evs[0]).0, evs.drop_first(), i - 2),
            evs.drop_first()[i - 2],
        ).0);
    }
}

/// Idempotent dry run, second half: the target a dry run reports is
/// the very value a real run with the same arguments and the same
/// filesystem answers carries into its mutation phases — the resolver
/// never reads the dry-run flag.
pub proof fn lemma_dry_run_reports_real_target(
    e_dry: EngineV,
    e_real: EngineV,
    source_kind: FsKind,
    resolved: Seq<char>,
    abs_src: Seq<char>,
    abs_dst: Seq<char>,
    dest_kind: FsKind,
    dest_exists: bool,
)
    requires
        e_dry.opts.dry_run,
        !e_real.opts.dry_run,
        e_dry.source == e_real.source,
        e_dry.cwd == e_real.cwd,
        e_dry.opts.absolute == e_real.opts.absolute,
        e_dry.opts.force == e_real.opts.force,
        !same_path(abs_src, abs_dst),
        !(source_kind == FsKind::Dir && path_within(abs_dst, abs_src)),
        !(dest_exists && !e_dry.opts.force),
    ensures
        v_decide(e_dry, source_kind, resolved, abs_src, abs_dst, dest_kind, dest_exists).1
            == StepV::Finish(
            ResV {
                source: e_dry.source,
                dest: resolved,
                symlink_target: spec_compute_target(
                    e_dry.source,
                    resolved,
                    e_dry.opts.absolute,
                    e_dry.cwd,
                ),
            },
        ),
        ctx_target_of(
            v_decide(e_real, source_kind, resolved, abs_src, abs_dst, dest_kind, dest_exists).0,
        ) == Option::Some(
            spec_compute_target(e_dry.source, resolved, e_dry.opts.absolute, e_dry.cwd),
        ),
{
}

/// The move context a state carries, where it carries one.
pub open spec fn ctx_of(e: EngineV) -> Option<CtxV> {
    match e.phase {
        PhaseV::ParentCheck { m, .. } => Option::Some(m),
        PhaseV::MkDirs { m, .. } => Option::Some(m),
        PhaseV::OverwriteStat { m } => Option::Some(m),
        PhaseV::OverwriteRemove { m, .. } => Option::Some(m),
        PhaseV::Renaming { m } => Option::Some(m),
        PhaseV::CopyStat { m } => Option::Some(m),
        PhaseV::CopyLinkRead { m } => Option::Some(m),
        PhaseV::CopyLinkMake { m } => Option::Some(m),
        PhaseV::CopyFileDone { m } => Option::Some(m),
        PhaseV::TreeDirCreated { m, .. } => Option::Some(m),
        PhaseV::TreeEntries { m, .. } => Option::Some(m),
        PhaseV::TreeItemStat { m, .. } => Option::Some(m),
        PhaseV::TreeItemLink { m, .. } => Option::Some(m),
        PhaseV::TreeItemLinkMake { m, .. } => Option::Some(m),
        PhaseV::TreeItemFile { m, .. } => Option::Some(m),
        PhaseV::CopyVerify { m, .. } => Option::Some(m),
        PhaseV::SourceRemove { m, .. } => Option::Some(m),
        PhaseV::LinkCleanupStat { m } => Option::Some(m),
        PhaseV::LinkCleanupRemove { m } => Option::Some(m),
        PhaseV::LinkCreate { m } => Option::Some(m),
        _ => Option::None,
    }
}

/// The symlink target a state carries, where it carries one.
pub open spec fn ctx_target_of(e: EngineV) -> Option<Seq<char>> {
    match ctx_of(e) {
        Option::Some(m) => Option::Some(m.target),
        Option::None => Option::None,
    }
}

/// Symlink-to-directory overwrite safety: when the entry at the
/// destination is freshly stat'ed as a symlink, the engine asks for
/// the symlink itself to be unlinked; a recursive removal — which
/// would follow the link and destroy the target directory's contents —
/// is asked for exactly when the fresh stat reported a real directory.
pub proof fn lemma_overwrite_never_follows_symlink(e: EngineV, m: CtxV, kind: FsKind)
    ensures
        kind == FsKind::Symlink ==> v_overwrite_stat(e, m, kind).1 == StepV::Do(
            ActV::Unlink(m.resolved),
        ),
        (v_overwrite_stat(e, m, kind).1 == StepV::Do(ActV::RmTree(m.resolved))) <==> kind
            == FsKind::Dir,
{
}

/// Cross-filesystem fallback, first half: only the cross-device errno
/// turns a failed rename into a copy; any other failure ends the run
/// with the source untouched.
pub proof fn lemma_cross_device_fallback(e: EngineV, m: CtxV, code: Option<i32>, detail: Seq<char>)
    ensures
        code == Option::Some(exdev_code()) ==> v_renaming(e, m, false, code, detail).1 == StepV::Do(
            ActV::Stat(e.source),
        ),
        code != Option::Some(exdev_code()) ==> v_renaming(e, m, false, code, detail) == v_fail(
            e,
            ErrV::MoveFailed(e.source, m.resolved, detail),
        ),
{
}

/// Cross-filesystem fallback, second half: after the copy, the source
/// may only be removed once the destination has been re-verified
/// present; when the verification fails, the run ends and the source
/// stays.
pub proof fn lemma_copy_verify_guards_removal(e: EngineV, m: CtxV, was_dir: bool, yes: bool)
    ensures
        !yes ==> v_copy_verify(e, m, was_dir, yes) == v_fail(
            e,
            ErrV::CopyFailed(e.source, m.resolved, "destination not found after copy"@),
        ),
        yes && was_dir ==> v_copy_verify(e, m, was_dir, yes).1 == StepV::Do(
            ActV::RmTree(e.source),
        ),
        yes && !was_dir ==> v_copy_verify(e, m, was_dir, yes).1 == StepV::Do(
            ActV::Unlink(e.source),
        ),
{
}

/// During the copy fallback a symlink is read and re-created, never
/// entered: a tree entry stat'ed as a symlink leads to reading its
/// stored target, a real directory is entered, anything else is copied
/// as one file.
pub proof fn lemma_copy_preserves_symlinks(
    e: EngineV,
    m: CtxV,
    jobs: Seq<JobV>,
    job: JobV,
    kind: FsKind,
)
    ensures
        kind == FsKind::Symlink ==> v_tree_item_stat(e, m, jobs, job, kind).1 == StepV::Do(
            ActV::ReadLink(job.src),
        ),
        kind == FsKind::Symlink ==> v_copy_stat(e, m, kind).1 == StepV::Do(
            ActV::ReadLink(e.source),
        ),
{
}

/// Never-lost: no transition asks for the source to be deleted while
/// the moved data is unconfirmed.  An action that unlinks or removes
/// the source path is emitted only (a) after the copied destination
/// was re-verified present, (b) after a symlink source was re-created
/// at the destination, (c) as the leftover cleanup of the linking
/// phase, which only runs once the rename or the verified copy
/// succeeded, or (d) as the overwrite removal of a destination whose
/// text happens to equal the source's — a pair the preflight rejects
/// when their absolute forms agree.
pub proof fn lemma_source_removal_guarded(e: EngineV, ev: EvV)
    requires
        spec_step(e, ev).1 == StepV::Do(ActV::Unlink(e.source)) || spec_step(e, ev).1 == StepV::Do(
            ActV::RmTree(e.source),
        ),
    ensures
        ({
            ||| (e.phase matches PhaseV::CopyVerify { .. } && ev matches EvV::Exists { yes: true })
            ||| (e.phase matches PhaseV::CopyLinkMake { .. } && ev matches EvV::Done {
                ok: true,
                ..
            })
            ||| (e.phase matches PhaseV::LinkCleanupStat { .. })
            ||| (ctx_of(e) matches Option::Some(m) && m.resolved == e.source)
        }),
{
}

/// The phases after the move itself: the source's removal and the
/// linking of its path.
pub open spec fn post_move_phase(p: PhaseV) -> bool {
    ||| p matches PhaseV::SourceRemove { .. }
    ||| p matches PhaseV::LinkCleanupStat { .. }
    ||| p matches PhaseV::LinkCleanupRemove { .. }
    ||| p matches PhaseV::LinkCreate { .. }
}

/// An event that confirms the moved data is present at the
/// destination: the rename succeeded, the copied destination was
/// re-verified present, or the re-created symlink was reported made.
pub open spec fn confirming_event(e: EngineV, ev: EvV) -> bool {
    ||| (e.phase matches PhaseV::Renaming { .. } && ev matches EvV::Renamed { ok: true, .. })
    ||| (e.phase matches PhaseV::CopyVerify { .. } && ev matches EvV::Exists { yes: true })
    ||| (e.phase matches PhaseV::CopyLinkMake { .. } && ev matches EvV::Done { ok: true, .. })
}

/// The post-move phases are entered only on a confirming event.
#[verifier::rlimit(100)]
proof fn lemma_post_move_entry(e: EngineV, ev: EvV)
    requires
        !post_move_phase(e.phase),
        post_move_phase(spec_step(e, ev).0.phase),
    ensures
        confirming_event(e, ev),
{
}

/// A run that stands in a post-move phase consumed a confirming event
/// on the way.
proof fn lemma_post_move_has_confirmation(e0: EngineV, evs: Seq<EvV>, i: int)
    requires
        !post_move_phase(e0.phase),
        0 <= i <= evs.len(),
        post_move_phase(state_at(e0, evs, i).phase),
    ensures
        exists|j: int|
            0 <= j < i && confirming_event(#[trigger] state_at(e0, evs, j), evs[j]),
    decreases i,
{
    if i == 0 {
        assert(false);
    } else {
        let prev = state_at(e0, evs, i - 1);
        if post_move_phase(prev.phase) {
            lemma_post_move_has_confirmation(e0, evs, i - 1);
        } else {
            lemma_post_move_entry(prev, evs[i - 1]);
            assert(confirming_event(state_at(e0, evs, i - 1), evs[i - 1]));
        }
    }
}

/// The inputs of a run never change: at every step the state still
/// carries the source, destination, options and working directory it
/// started with.
pub proof fn lemma_run_keeps_inputs(e0: EngineV, evs: Seq<EvV>, i: int)
    requires
        0 <= i <= evs.len(),
    ensures
        state_at(e0, evs, i).source == e0.source,
        state_at(e0, evs, i).dest == e0.dest,
        state_at(e0, evs, i).opts == e0.opts,
        state_at(e0, evs, i).cwd == e0.cwd,
    decreases i,
{
    if i > 0 {
        lemma_run_keeps_inputs(e0, evs, i - 1);
        lemma_step_keeps_inputs(state_at(e0, evs, i - 1), evs[i - 1]);
    }
}

/// Never-lost, over a whole run: starting fresh, when the engine asks
/// at step `i` for its source path to be removed — and the state is
/// not the overwrite of a destination whose text happens to equal the
/// source's, a pair the preflight rejects when their absolute forms
/// agree — then some event at or before `i` confirmed the moved data
/// at the destination: the rename succeeded, the copied destination
/// was re-verified present, or the re-created symlink was reported
/// made.  Whatever the filesystem answers, the engine never orders the
/// only copy of the data destroyed.
pub proof fn lemma_never_lost(e0: EngineV, evs: Seq<EvV>, i: int)
    requires
        e0.phase == PhaseV::StatSource,
        0 <= i < evs.len(),
        step_at(e0, evs, i) == StepV::Do(ActV::Unlink(e0.source)) || step_at(e0, evs, i)
            == StepV::Do(ActV::RmTree(e0.source)),
        match ctx_of(state_at(e0, evs, i)) {
            Option::Some(m) => m.resolved != e0.source,
            Option::None => true,
        },
    ensures
        exists|j: int|
            0 <= j <= i && confirming_event(#[trigger] state_at(e0, evs, j), evs[j]),
{
    let e = state_at(e0, evs, i);
    lemma_run_keeps_inputs(e0, evs, i);
    lemma_source_removal_guarded(e, evs[i]);
    if e.phase matches PhaseV::CopyVerify { .. } {
        assert(confirming_event(state_at(e0, evs, i), evs[i]));
    } else if e.phase matches PhaseV::CopyLinkMake { .. } {
        assert(confirming_event(state_at(e0, evs, i), evs[i]));
    } else {
        assert(e.phase matches PhaseV::LinkCleanupStat { .. });
        assert(post_move_phase(e.phase));
        lemma_post_move_has_confirmation(e0, evs, i);
    }
}

} // verus!
