//! The mathematical model of paths.
//!
//! A path is modelled as a sequence of components together with an
//! absolute/relative flag.  Components are obtained by splitting the text
//! on `/`; empty components and `.` components carry no meaning and are
//! dropped, while `..` components are kept.  This mirrors how the
//! operating system reads a path, so two paths with equal models name the
//! same filesystem entry (as long as no symlink is involved).

use vstd::prelude::*;

verus! {

/// A path string is absolute when it starts with a separator.
pub open spec fn is_abs(s: Seq<char>) -> bool {
    s.len() > 0 && s[0] == '/'
}

/// The `..` component.
pub open spec fn up_comp() -> Seq<char> {
    seq!['.', '.']
}

/// A finished component is kept unless it is empty or a lone `.`.
pub open spec fn flush_comp(cur: Seq<char>) -> Seq<Seq<char>> {
    if cur.len() == 0 || cur == seq!['.'] {
        seq![]
    } else {
        seq![cur]
    }
}

/// Components of `s` from position `i` on, with `cur` the partial
/// component read so far.
pub open spec fn split_from(s: Seq<char>, i: int, cur: Seq<char>) -> Seq<Seq<char>>
    decreases s.len() - i,
{
    if i < 0 || i >= s.len() {
        flush_comp(cur)
    } else if s[i] == '/' {
        flush_comp(cur) + split_from(s, i + 1, Seq::empty())
    } else {
        split_from(s, i + 1, cur.push(s[i]))
    }
}

/// The components of a path string: split on `/`, dropping empty and `.`
/// components.
pub open spec fn split_comps(s: Seq<char>) -> Seq<Seq<char>> {
    split_from(s, 0, Seq::empty())
}

/// The views of a vector of component strings.
pub open spec fn seq_views(v: Seq<String>) -> Seq<Seq<char>> {
    v.map_values(|c: String| c@)
}

/// The text of `comps[0..k]` joined with `/` separators (no leading
/// separator).
pub open spec fn join_upto(comps: Seq<Seq<char>>, k: int) -> Seq<char>
    decreases k,
{
    if k <= 0 {
        Seq::empty()
    } else if k == 1 {
        comps[0]
    } else {
        join_upto(comps, k - 1) + seq!['/'] + comps[k - 1]
    }
}

/// The text of a whole component sequence, joined with `/`.
pub open spec fn join_comps(comps: Seq<Seq<char>>) -> Seq<char> {
    join_upto(comps, comps.len() as int)
}

/// The text of a path with the given components and flag.
pub open spec fn spec_render(absolute: bool, comps: Seq<Seq<char>>) -> Seq<char> {
    if absolute {
        seq!['/'] + join_comps(comps)
    } else {
        join_comps(comps)
    }
}

/// Lexical normalization: a `..` component removes the component before
/// it; a `..` with nothing before it is dropped (the parent of the root
/// is the root).
pub open spec fn normalize_comps(comps: Seq<Seq<char>>) -> Seq<Seq<char>>
    decreases comps.len(),
{
    if comps.len() == 0 {
        Seq::empty()
    } else {
        let prev = normalize_comps(comps.drop_last());
        if comps.last() == up_comp() {
            if prev.len() > 0 {
                prev.drop_last()
            } else {
                prev
            }
        } else {
            prev.push(comps.last())
        }
    }
}

/// No component of the sequence is `..`.
pub open spec fn no_up(comps: Seq<Seq<char>>) -> bool {
    forall|i: int| 0 <= i < comps.len() ==> comps[i] != up_comp()
}

/// One component sequence is a prefix of another.
pub open spec fn is_prefix(pre: Seq<Seq<char>>, full: Seq<Seq<char>>) -> bool {
    pre.len() <= full.len() && pre == full.take(pre.len() as int)
}

/// The text of `dir` with `name` appended after a separator.
pub open spec fn spec_join(dir: Seq<char>, name: Seq<char>) -> Seq<char> {
    if dir.len() == 0 {
        name
    } else if dir.last() == '/' {
        dir + name
    } else {
        dir + seq!['/'] + name
    }
}

/// The directory part of a path: the path without its last component.
/// The root and component-less texts have no parent.
pub open spec fn spec_parent(s: Seq<char>) -> Option<Seq<char>> {
    let comps = split_comps(s);
    if comps.len() == 0 {
        Option::None
    } else {
        Option::Some(spec_render(is_abs(s), comps.drop_last()))
    }
}

/// The last component of a path, unless there is none or it is `..`.
pub open spec fn spec_file_name(s: Seq<char>) -> Option<Seq<char>> {
    let comps = split_comps(s);
    if comps.len() == 0 {
        Option::None
    } else if comps.last() == up_comp() {
        Option::None
    } else {
        Option::Some(comps.last())
    }
}

/// Two path strings name the same entry: equal flags and equal
/// components.
pub open spec fn same_path(a: Seq<char>, b: Seq<char>) -> bool {
    is_abs(a) == is_abs(b) && split_comps(a) == split_comps(b)
}

/// `inner` lies at or under `outer`: equal flags and the components of
/// `outer` are a prefix of those of `inner`.
pub open spec fn path_within(inner: Seq<char>, outer: Seq<char>) -> bool {
    is_abs(inner) == is_abs(outer) && is_prefix(split_comps(outer), split_comps(inner))
}

/// Past the inserted separator, splitting the joined text is
/// splitting the second part.
proof fn lemma_split_from_tail(u: Seq<char>, v: Seq<char>, j: int, cur: Seq<char>)
    requires
        u.len() + 1 <= j <= u.len() + 1 + v.len(),
    ensures
        split_from(u + seq!['/'] + v, j, cur) == split_from(v, j - u.len() - 1, cur),
    decreases u.len() + 1 + v.len() - j,
{
    let s = u + seq!['/'] + v;
    if j >= s.len() {
    } else {
        assert(s[j] == v[j - u.len() - 1]);
        if s[j] == '/' {
            lemma_split_from_tail(u, v, j + 1, Seq::empty());
        } else {
            lemma_split_from_tail(u, v, j + 1, cur.push(s[j]));
        }
    }
}

/// Splitting around an inserted separator splits the parts: the
/// components of `u + "/" + v` from position `i` on are those of `u`
/// from `i` on followed by those of `v`.
proof fn lemma_split_concat(u: Seq<char>, v: Seq<char>, i: int, cur: Seq<char>)
    requires
        0 <= i <= u.len(),
    ensures
        split_from(u + seq!['/'] + v, i, cur) == split_from(u, i, cur) + split_comps(v),
    decreases u.len() - i,
{
    let s = u + seq!['/'] + v;
    if i == u.len() {
        assert(s[i] == '/');
        lemma_split_from_tail(u, v, i + 1, Seq::empty());
        assert(split_from(s, i, cur) =~= flush_comp(cur) + split_comps(v));
        assert(split_from(u, i, cur) == flush_comp(cur));
    } else {
        assert(s[i] == u[i]);
        if u[i] == '/' {
            lemma_split_concat(u, v, i + 1, Seq::empty());
            assert(flush_comp(cur) + (split_from(u, i + 1, Seq::empty()) + split_comps(v)) =~= (
            flush_comp(cur) + split_from(u, i + 1, Seq::empty())) + split_comps(v));
        } else {
            lemma_split_concat(u, v, i + 1, cur.push(u[i]));
        }
    }
}

/// Splitting a joined path splits its parts, and joining keeps the
/// absolute flag.  (The first part may not end in a separator; the
/// join then inserts one.)
pub proof fn lemma_split_join(a: Seq<char>, b: Seq<char>)
    requires
        a.len() > 0,
        a.last() != '/',
    ensures
        split_comps(spec_join(a, b)) == split_comps(a) + split_comps(b),
        is_abs(spec_join(a, b)) == is_abs(a),
{
    lemma_split_concat(a, b, 0, Seq::empty());
    assert((a + seq!['/'] + b)[0] == a[0]);
}

/// Whether a path string is absolute.
pub fn path_is_absolute(s: &String) -> (r: bool)
    ensures
        r == is_abs(s@),
{
    if s.as_str().unicode_len() == 0 {
        false
    } else {
        s.as_str().get_char(0) == '/'
    }
}

/// Whether a component string is the `.` component.
fn comp_is_dot(c: &String) -> (r: bool)
    ensures
        r == (c@ == seq!['.']),
{
    if c.as_str().unicode_len() == 1 {
        let ch = c.as_str().get_char(0);
        if ch == '.' {
            proof {
                assert(c@ =~= seq!['.']);
            }
            true
        } else {
            proof {
                assert(c@ != seq!['.']) by {
                    assert(c@[0] != '.');
                }
            }
            false
        }
    } else {
        false
    }
}

/// Split a path string into its components.
pub fn parse_components(s: &String) -> (r: Vec<String>)
    ensures
        seq_views(r@) == split_comps(s@),
{
    let text = s.as_str();
    let n = text.unicode_len();
    let mut i: usize = 0;
    let mut cur = String::new();
    let mut out: Vec<String> = Vec::new();
    while i < n
        invariant
            n == text@.len(),
            i <= n,
            text@ == s@,
            seq_views(out@) + split_from(s@, i as int, cur@) =~= split_comps(s@),
        decreases n - i,
    {
        let c = text.get_char(i);
        if c == '/' {
            if cur.as_str().unicode_len() > 0 && !comp_is_dot(&cur) {
                let ghost old_out = out@;
                out.push(cur);
                proof {
                    assert(seq_views(out@) =~= seq_views(old_out) + seq![cur@]);
                    assert(flush_comp(cur@) =~= seq![cur@]);
                    assert(seq_views(out@) + split_from(s@, i + 1, Seq::empty()) =~= (
                    seq_views(old_out) + (flush_comp(cur@) + split_from(
                        s@,
                        i + 1,
                        Seq::empty(),
                    ))));
                }
            } else {
                proof {
                    assert(flush_comp(cur@) =~= Seq::<Seq<char>>::empty());
                    assert(flush_comp(cur@) + split_from(s@, i + 1, Seq::empty()) =~= split_from(
                        s@,
                        i + 1,
                        Seq::empty(),
                    ));
                }
            }
            cur = String::new();
        } else {
            let piece = text.substring_char(i, i + 1);
            proof {
                assert(piece@ =~= seq![s@[i as int]]);
            }
            let ghost cur_before = cur@;
            cur.append(piece);
            proof {
                assert(cur@ =~= cur_before.push(s@[i as int]));
            }
        }
        i = i + 1;
    }
    if cur.as_str().unicode_len() > 0 && !comp_is_dot(&cur) {
        let ghost old_out = out@;
        out.push(cur);
        proof {
            assert(seq_views(out@) =~= seq_views(old_out) + seq![cur@]);
            assert(flush_comp(cur@) =~= seq![cur@]);
            assert(seq_views(out@) =~= split_comps(s@));
        }
    } else {
        proof {
            assert(flush_comp(cur@) =~= Seq::<Seq<char>>::empty());
            assert(seq_views(out@) + flush_comp(cur@) =~= seq_views(out@));
        }
    }
    out
}

/// Render components back into a path string.
pub fn render_path(absolute: bool, comps: &Vec<String>) -> (r: String)
    ensures
        r@ == spec_render(absolute, seq_views(comps@)),
{
    let mut acc = String::new();
    if absolute {
        acc.append("/");
        proof {
            reveal_strlit("/");
            assert(acc@ =~= seq!['/']);
        }
    }
    let ghost lead: Seq<char> = if absolute {
        seq!['/']
    } else {
        Seq::empty()
    };
    proof {
        assert(acc@ =~= lead + join_upto(seq_views(comps@), 0));
    }
    let mut k: usize = 0;
    while k < comps.len()
        invariant
            k <= comps.len(),
            acc@ == lead + join_upto(seq_views(comps@), k as int),
            lead == (if absolute {
                seq!['/']
            } else {
                Seq::<char>::empty()
            }),
        decreases comps.len() - k,
    {
        if k > 0 {
            acc.append("/");
            proof {
                reveal_strlit("/");
            }
        }
        acc.append(comps[k].as_str());
        proof {
            if k == 0 {
                assert(acc@ =~= lead + join_upto(seq_views(comps@), 1));
            } else {
                assert(acc@ =~= lead + (join_upto(seq_views(comps@), k as int) + seq!['/']
                    + seq_views(comps@)[k as int]));
                assert(lead + (join_upto(seq_views(comps@), k as int) + seq!['/'] + seq_views(
                    comps@,
                )[k as int]) =~= lead + join_upto(seq_views(comps@), k as int + 1));
            }
        }
        k = k + 1;
    }
    proof {
        assert(acc@ =~= spec_render(absolute, seq_views(comps@)));
    }
    acc
}

/// Whether a component string is the `..` component.
fn comp_is_up(c: &String) -> (r: bool)
    ensures
        r == (c@ == up_comp()),
{
    if c.as_str().unicode_len() == 2 {
        let c0 = c.as_str().get_char(0);
        let c1 = c.as_str().get_char(1);
        if c0 == '.' && c1 == '.' {
            proof {
                assert(c@ =~= up_comp());
            }
            true
        } else {
            proof {
                assert(c@ != up_comp()) by {
                    assert(c@[0] != '.' || c@[1] != '.');
                    assert(up_comp()[0] == '.' && up_comp()[1] == '.');
                }
            }
            false
        }
    } else {
        proof {
            assert(up_comp().len() == 2);
        }
        false
    }
}

/// Append `name` to `dir` after a separator.
pub fn join_path(dir: &String, name: &String) -> (r: String)
    ensures
        r@ == spec_join(dir@, name@),
{
    let mut acc = String::new();
    acc.append(dir.as_str());
    let n = dir.as_str().unicode_len();
    if n > 0 {
        if dir.as_str().get_char(n - 1) != '/' {
            acc.append("/");
            proof {
                reveal_strlit("/");
                assert(acc@ =~= dir@ + seq!['/']);
            }
        }
    }
    acc.append(name.as_str());
    proof {
        assert(acc@ =~= spec_join(dir@, name@));
    }
    acc
}

/// The directory part of a path string.
pub fn parent_dir(s: &String) -> (r: Option<String>)
    ensures
        match r {
            Option::Some(p) => spec_parent(s@) == Option::Some(p@),
            Option::None => spec_parent(s@) == Option::<Seq<char>>::None,
        },
{
    let absolute = path_is_absolute(s);
    let mut comps = parse_components(s);
    if comps.len() == 0 {
        Option::None
    } else {
        let ghost full = seq_views(comps@);
        comps.pop();
        proof {
            assert(seq_views(comps@) =~= full.drop_last());
        }
        Option::Some(render_path(absolute, &comps))
    }
}

/// The last component of a path string, unless there is none or it is
/// `..`.
pub fn file_name_of(s: &String) -> (r: Option<String>)
    ensures
        match r {
            Option::Some(p) => spec_file_name(s@) == Option::Some(p@),
            Option::None => spec_file_name(s@) == Option::<Seq<char>>::None,
        },
{
    let mut comps = parse_components(s);
    if comps.len() == 0 {
        Option::None
    } else {
        let ghost full = seq_views(comps@);
        let last = comps.pop().unwrap();
        proof {
            assert(last@ == full.last());
        }
        if comp_is_up(&last) {
            Option::None
        } else {
            Option::Some(last)
        }
    }
}

/// Whether two component vectors hold the same components.
pub fn components_equal(a: &Vec<String>, b: &Vec<String>) -> (r: bool)
    ensures
        r == (seq_views(a@) == seq_views(b@)),
{
    if a.len() != b.len() {
        proof {
            assert(seq_views(a@).len() != seq_views(b@).len());
        }
        return false;
    }
    let mut i: usize = 0;
    while i < a.len()
        invariant
            a@.len() == b@.len(),
            i <= a@.len(),
            forall|j: int| 0 <= j < i ==> seq_views(a@)[j] == seq_views(b@)[j],
        decreases a@.len() - i,
    {
        if !(a[i] == b[i]) {
            proof {
                assert(seq_views(a@)[i as int] != seq_views(b@)[i as int]);
            }
            return false;
        }
        i = i + 1;
    }
    proof {
        assert(seq_views(a@) =~= seq_views(b@));
    }
    true
}

/// Whether the components of `pre` are a prefix of those of `full`.
pub fn components_prefix(pre: &Vec<String>, full: &Vec<String>) -> (r: bool)
    ensures
        r == is_prefix(seq_views(pre@), seq_views(full@)),
{
    if pre.len() > full.len() {
        return false;
    }
    let mut i: usize = 0;
    while i < pre.len()
        invariant
            pre@.len() <= full@.len(),
            i <= pre@.len(),
            forall|j: int| 0 <= j < i ==> seq_views(pre@)[j] == seq_views(full@)[j],
        decreases pre@.len() - i,
    {
        if !(pre[i] == full[i]) {
            proof {
                assert(seq_views(pre@)[i as int] != seq_views(full@).take(
                    seq_views(pre@).len() as int,
                )[i as int]);
            }
            return false;
        }
        i = i + 1;
    }
    proof {
        assert(seq_views(pre@) =~= seq_views(full@).take(seq_views(pre@).len() as int));
    }
    true
}

/// Whether two path strings have the same model.
pub fn paths_same(a: &String, b: &String) -> (r: bool)
    ensures
        r == same_path(a@, b@),
{
    let aa = path_is_absolute(a);
    let ba = path_is_absolute(b);
    if aa != ba {
        return false;
    }
    let ca = parse_components(a);
    let cb = parse_components(b);
    components_equal(&ca, &cb)
}

/// Whether `inner` lies at or under `outer`.
pub fn path_is_within(inner: &String, outer: &String) -> (r: bool)
    ensures
        r == path_within(inner@, outer@),
{
    let ia = path_is_absolute(inner);
    let oa = path_is_absolute(outer);
    if ia != oa {
        return false;
    }
    let ci = parse_components(inner);
    let co = parse_components(outer);
    components_prefix(&co, &ci)
}

} // verus!
