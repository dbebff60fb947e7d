//! The symlink-target resolver.
//!
//! When a symlink is created at `link_location` and must point at
//! `target_file`, this module computes the text the link should store:
//! either the target made absolute, or the relative path from the link's
//! directory to the target.  The resolver never follows a symlink and
//! never touches the filesystem; the working directory, where one is
//! needed, is handed in by the caller.

use vstd::prelude::*;

use crate::path_model::{
    is_abs, join_comps, join_path, no_up, normalize_comps, parent_dir,
    path_is_absolute, spec_join, spec_parent, split_comps, up_comp,
};

verus! {

/// The view of an optional path string.
pub open spec fn opt_view(o: &Option<String>) -> Option<Seq<char>> {
    match o {
        Option::Some(c) => Option::Some(c@),
        Option::None => Option::None,
    }
}

/// The relative path that reaches `t` from the directory `b`, both given
/// as component sequences: the common prefix is walked up with one `..`
/// per extra component of `b`, then down into `t`.  A `..` left in `b`
/// past the common prefix cannot be walked back, so there is no result.
pub open spec fn spec_diff(t: Seq<Seq<char>>, b: Seq<Seq<char>>) -> Option<Seq<Seq<char>>>
    decreases b.len() + t.len(),
{
    if b.len() == 0 {
        Option::Some(t)
    } else if t.len() == 0 {
        Option::Some(Seq::new(b.len(), |i: int| up_comp()))
    } else if t[0] == b[0] {
        spec_diff(t.drop_first(), b.drop_first())
    } else if b[0] == up_comp() {
        Option::None
    } else {
        Option::Some(Seq::new(b.len(), |i: int| up_comp()) + t)
    }
}

/// Relies on pathdiff::diff_paths: for two absolute paths it walks their
/// components in step, emits one `..` per component of `base` past the
/// common prefix, then the rest of `target`, and yields nothing when a
/// `..` component of `base` is reached past the common prefix.
#[verifier::external_body]
fn relative_from(target: &String, base: &String) -> (r: Option<String>)
    requires
        is_abs(target@),
        is_abs(base@),
    ensures
        match (r, spec_diff(split_comps(target@), split_comps(base@))) {
            (Option::Some(s), Option::Some(d)) => s@ == join_comps(d),
            (Option::None, Option::None) => true,
            _ => false,
        },
{
    pathdiff::diff_paths(target.as_str(), base.as_str()).map(
        |p: std::path::PathBuf| p.to_string_lossy().into_owned(),
    )
}

/// A path made absolute against the working directory; an absolute path
/// is kept as it is, and so is a relative one when no working directory
/// is known.
pub open spec fn spec_absolutize(p: Seq<char>, cwd: Option<Seq<char>>) -> Seq<char> {
    if is_abs(p) {
        p
    } else {
        match cwd {
            Option::Some(c) => spec_join(c, p),
            Option::None => p,
        }
    }
}

/// The directory the link lives in: the link's parent, or `.` when it
/// has none.
pub open spec fn spec_link_dir(link: Seq<char>) -> Seq<char> {
    match spec_parent(link) {
        Option::Some(p) => p,
        Option::None => seq!['.'],
    }
}

/// What the symlink's stored text must be.  In absolute mode the target
/// is made absolute and nothing more: no component is resolved, so a
/// target that is itself a symlink keeps its own identity.  In relative
/// mode the path from the link's directory to the target is computed
/// over the two absolute forms; when the two cannot both be made
/// absolute, or the walk fails, the target is kept as given.
pub open spec fn spec_compute_target(
    link: Seq<char>,
    target: Seq<char>,
    absolute: bool,
    cwd: Option<Seq<char>>,
) -> Seq<char> {
    if absolute {
        spec_absolutize(target, cwd)
    } else {
        let abs_dir = spec_absolutize(spec_link_dir(link), cwd);
        let abs_target = spec_absolutize(target, cwd);
        if is_abs(abs_dir) && is_abs(abs_target) {
            match spec_diff(split_comps(abs_target), split_comps(abs_dir)) {
                Option::Some(d) => join_comps(d),
                Option::None => target,
            }
        } else {
            target
        }
    }
}

/// A sequence of `n` components `..`.
pub open spec fn ups(n: nat) -> Seq<Seq<char>> {
    Seq::new(n, |i: int| up_comp())
}

/// The length of the common prefix of two component sequences.
pub open spec fn lcp(t: Seq<Seq<char>>, b: Seq<Seq<char>>) -> int
    decreases t.len(),
{
    if t.len() > 0 && b.len() > 0 && t[0] == b[0] {
        1 + lcp(t.drop_first(), b.drop_first())
    } else {
        0
    }
}

/// The common prefix is a prefix of both sequences.
proof fn lemma_lcp_prefix(t: Seq<Seq<char>>, b: Seq<Seq<char>>)
    ensures
        0 <= lcp(t, b) <= t.len(),
        lcp(t, b) <= b.len(),
        t.take(lcp(t, b)) =~= b.take(lcp(t, b)),
    decreases t.len(),
{
    if t.len() > 0 && b.len() > 0 && t[0] == b[0] {
        lemma_lcp_prefix(t.drop_first(), b.drop_first());
        assert(t.take(lcp(t, b)) =~= b.take(lcp(t, b))) by {
            let c = lcp(t, b);
            let cc = lcp(t.drop_first(), b.drop_first());
            assert(t.drop_first().take(cc) =~= b.drop_first().take(cc));
            assert forall|i: int| 0 <= i < c implies t.take(c)[i] == b.take(c)[i] by {
                if i > 0 {
                    assert(t.drop_first().take(cc)[i - 1] == b.drop_first().take(cc)[i - 1]);
                }
            }
        }
    }
}

/// What the walk yields: one `..` per component of `b` past the common
/// prefix, then the rest of `t`.
proof fn lemma_diff_shape(t: Seq<Seq<char>>, b: Seq<Seq<char>>)
    requires
        no_up(b),
    ensures
        spec_diff(t, b) == Option::Some(
            ups((b.len() - lcp(t, b)) as nat) + t.skip(lcp(t, b)),
        ),
    decreases b.len() + t.len(),
{
    lemma_lcp_prefix(t, b);
    if b.len() == 0 {
        assert(ups(0) + t.skip(0) =~= t);
    } else if t.len() == 0 {
        assert(ups(b.len()) + t.skip(0) =~= Seq::new(b.len(), |i: int| up_comp()));
    } else if t[0] == b[0] {
        assert(no_up(b.drop_first())) by {
            assert forall|i: int|
                0 <= i < b.drop_first().len() implies b.drop_first()[i] != up_comp() by {
                assert(b.drop_first()[i] == b[i + 1]);
            }
        }
        lemma_diff_shape(t.drop_first(), b.drop_first());
        let cc = lcp(t.drop_first(), b.drop_first());
        lemma_lcp_prefix(t.drop_first(), b.drop_first());
        let c = lcp(t, b);
        assert(c == cc + 1);
        let lhs = ups((b.drop_first().len() - cc) as nat) + t.drop_first().skip(cc);
        let rhs = ups((b.len() - c) as nat) + t.skip(c);
        let nups = b.len() - c;
        assert forall|i: int| 0 <= i < lhs.len() implies lhs[i] == rhs[i] by {
            if i < nups {
                assert(lhs[i] == up_comp());
                assert(rhs[i] == up_comp());
            } else {
                assert(lhs[i] == t.drop_first()[cc + (i - nups)]);
                assert(t.drop_first()[cc + (i - nups)] == t[c + (i - nups)]);
                assert(rhs[i] == t[c + (i - nups)]);
            }
        }
        assert(lhs =~= rhs);
    } else if b[0] == up_comp() {
        assert(false);
    } else {
        assert(lcp(t, b) == 0);
        assert(ups(b.len()) + t.skip(0) =~= Seq::new(b.len(), |i: int| up_comp()) + t);
    }
}

/// A sequence without `..` components normalizes to itself.
proof fn lemma_norm_id(x: Seq<Seq<char>>)
    requires
        no_up(x),
    ensures
        normalize_comps(x) == x,
    decreases x.len(),
{
    if x.len() > 0 {
        assert(no_up(x.drop_last())) by {
            assert forall|i: int| 0 <= i < x.drop_last().len() implies x.drop_last()[i]
                != up_comp() by {
                assert(x.drop_last()[i] == x[i]);
            }
        }
        lemma_norm_id(x.drop_last());
        assert(x.last() != up_comp());
        assert(x.drop_last().push(x.last()) =~= x);
    }
}

/// Appending components without `..` appends them to the normal form.
proof fn lemma_norm_append(x: Seq<Seq<char>>, ys: Seq<Seq<char>>)
    requires
        no_up(ys),
    ensures
        normalize_comps(x + ys) == normalize_comps(x) + ys,
    decreases ys.len(),
{
    if ys.len() == 0 {
        assert(x + ys =~= x);
        assert(normalize_comps(x) + ys =~= normalize_comps(x));
    } else {
        assert(no_up(ys.drop_last())) by {
            assert forall|i: int| 0 <= i < ys.drop_last().len() implies ys.drop_last()[i]
                != up_comp() by {
                assert(ys.drop_last()[i] == ys[i]);
            }
        }
        lemma_norm_append(x, ys.drop_last());
        assert((x + ys).drop_last() =~= x + ys.drop_last());
        assert((x + ys).last() == ys.last());
        assert(ys.last() != up_comp());
        assert(normalize_comps(x + ys) == normalize_comps(x + ys.drop_last()).push(ys.last()));
        assert(normalize_comps(x) + ys =~= (normalize_comps(x) + ys.drop_last()).push(ys.last()));
    }
}

/// `k` components `..` undo the last `k` components.
proof fn lemma_norm_pop(x: Seq<Seq<char>>, k: nat)
    requires
        no_up(x),
        k <= x.len(),
    ensures
        normalize_comps(x + ups(k)) == x.take(x.len() - k),
    decreases k,
{
    if k == 0 {
        assert(x + ups(0) =~= x);
        lemma_norm_id(x);
        assert(x.take(x.len() as int) =~= x);
    } else {
        lemma_norm_pop(x, (k - 1) as nat);
        assert((x + ups(k)).drop_last() =~= x + ups((k - 1) as nat));
        assert((x + ups(k)).last() == up_comp());
        let prev = normalize_comps(x + ups((k - 1) as nat));
        assert(prev == x.take(x.len() - k + 1));
        assert(prev.len() > 0);
        assert(normalize_comps(x + ups(k)) == prev.drop_last());
        assert(prev.drop_last() =~= x.take(x.len() - k));
    }
}

/// The relative walk is exact: for component sequences without `..`,
/// the walk from `b` to `t` exists, and following it from `b` —
/// appending it and normalizing — reaches exactly `t`.  This is the
/// round trip behind relative links: a link stored at a directory `b`
/// resolves to the very path it was computed for.
pub proof fn lemma_relative_round_trip(t: Seq<Seq<char>>, b: Seq<Seq<char>>)
    requires
        no_up(t),
        no_up(b),
    ensures
        spec_diff(t, b) == Option::Some(ups((b.len() - lcp(t, b)) as nat) + t.skip(lcp(t, b))),
        normalize_comps(b + (ups((b.len() - lcp(t, b)) as nat) + t.skip(lcp(t, b)))) == t,
{
    lemma_lcp_prefix(t, b);
    lemma_diff_shape(t, b);
    let c = lcp(t, b);
    let d = ups((b.len() - c) as nat) + t.skip(c);
    assert(no_up(t.skip(c))) by {
        assert forall|i: int| 0 <= i < t.skip(c).len() implies t.skip(c)[i] != up_comp() by {
            assert(t.skip(c)[i] == t[i + c]);
        }
    }
    assert(b + d =~= (b + ups((b.len() - c) as nat)) + t.skip(c));
    lemma_norm_append(b + ups((b.len() - c) as nat), t.skip(c));
    lemma_norm_pop(b, (b.len() - c) as nat);
    assert(b.take(c) =~= t.take(c));
    assert(t.take(c) + t.skip(c) =~= t);
}

/// Make a path absolute against the working directory.
fn absolutize(p: &String, cwd: &Option<String>) -> (r: String)
    ensures
        r@ == spec_absolutize(p@, opt_view(cwd)),
{
    if path_is_absolute(p) {
        p.clone()
    } else {
        match cwd {
            Option::Some(c) => join_path(c, p),
            Option::None => p.clone(),
        }
    }
}

/// Compute the text a symlink at `link_location` must store to point at
/// `target_file`: the target made absolute, or the relative path from
/// the link's directory to the target.  `cwd` is the working directory,
/// if one is known; it is only read when an input is relative.
pub fn compute_symlink_target(
    link_location: &String,
    target_file: &String,
    absolute: bool,
    cwd: &Option<String>,
) -> (r: String)
    ensures
        r@ == spec_compute_target(link_location@, target_file@, absolute, opt_view(cwd)),
{
    if absolute {
        absolutize(target_file, cwd)
    } else {
        let link_dir = match parent_dir(link_location) {
            Option::Some(p) => p,
            Option::None => {
                let mut dot = String::new();
                dot.append(".");
                proof {
                    reveal_strlit(".");
                    assert(dot@ =~= seq!['.']);
                }
                dot
            },
        };
        let abs_dir = absolutize(&link_dir, cwd);
        let abs_target = absolutize(target_file, cwd);
        if path_is_absolute(&abs_dir) && path_is_absolute(&abs_target) {
            match relative_from(&abs_target, &abs_dir) {
                Option::Some(s) => s,
                Option::None => target_file.clone(),
            }
        } else {
            target_file.clone()
        }
    }
}

} // verus!
