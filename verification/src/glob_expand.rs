//! Glob pattern expansion.
//!
//! Source arguments may be shell-style patterns (`*`, `?`, `[...]`).
//! A pattern is expanded against the filesystem into the matching paths;
//! an argument without pattern characters passes through unchanged, even
//! when nothing exists at that path.  The combined result is sorted.

use vstd::prelude::*;

use crate::path_model::seq_views;

verus! {

/// Errors of glob expansion.
#[derive(Debug)]
pub enum GlobError {
    /// The pattern's syntax is invalid.
    InvalidPattern { pattern: String, reason: String },
    /// Reading the filesystem while matching failed.
    ExpansionFailed { pattern: String, reason: String },
    /// The pattern matched nothing.
    NoMatches { pattern: String },
}

/// The characters that make a string a glob pattern.
pub open spec fn is_glob_char(c: char) -> bool {
    c == '*' || c == '?' || c == '[' || c == ']'
}

/// Whether the text holds a glob character.
pub open spec fn has_glob_char(s: Seq<char>) -> bool {
    exists|i: int| 0 <= i < s.len() && is_glob_char(s[i])
}

/// Whether a string contains glob metacharacters (`*`, `?`, `[`, `]`).
pub fn is_glob_pattern(s: &str) -> (r: bool)
    ensures
        r == has_glob_char(s@),
{
    let n = s.unicode_len();
    let mut i: usize = 0;
    while i < n
        invariant
            n == s@.len(),
            i <= n,
            forall|j: int| 0 <= j < i ==> !is_glob_char(s@[j]),
        decreases n - i,
    {
        let c = s.get_char(i);
        if c == '*' || c == '?' || c == '[' || c == ']' {
            return true;
        }
        i = i + 1;
    }
    false
}

/// Lexicographic order on texts, by character value.
pub open spec fn lex_le(a: Seq<char>, b: Seq<char>) -> bool
    decreases a.len(),
{
    if a.len() == 0 {
        true
    } else if b.len() == 0 {
        false
    } else if a[0] == b[0] {
        lex_le(a.drop_first(), b.drop_first())
    } else {
        (a[0] as u32) < (b[0] as u32)
    }
}

/// The strings of the sequence stand in ascending lexicographic order.
pub open spec fn sorted_strs(ss: Seq<String>) -> bool {
    forall|i: int, j: int| 0 <= i < j < ss.len() ==> lex_le(ss[i]@, ss[j]@)
}

/// Relies on slice::sort for strings: it reorders the elements into
/// ascending order, and the order on strings is lexicographic over
/// their characters.
#[verifier::external_body]
fn sort_strings(v: &mut Vec<String>)
    ensures
        seq_views(final(v)@).to_multiset() == seq_views(old(v)@).to_multiset(),
        sorted_strs(final(v)@),
{
    v.sort();
}

/// Relies on glob::glob: it expands a pattern against the filesystem,
/// yielding the matching paths; a malformed pattern is reported before
/// any matching, a failure to read a directory during matching after.
#[verifier::external_body]
fn glob_once(pattern: &String) -> (r: Result<Vec<String>, GlobError>)
    ensures
        match r {
            Result::Ok(_) => true,
            Result::Err(e) => match e {
                GlobError::InvalidPattern { pattern: p, .. } => p@ == pattern@,
                GlobError::ExpansionFailed { pattern: p, .. } => p@ == pattern@,
                GlobError::NoMatches { .. } => false,
            },
        },
{
    let it = glob::glob(pattern.as_str()).map_err(
        |e| GlobError::InvalidPattern { pattern: pattern.clone(), reason: e.to_string() },
    )?;
    let mut out: Vec<String> = Vec::new();
    for entry in it {
        let p = entry.map_err(
            |e| GlobError::ExpansionFailed { pattern: pattern.clone(), reason: e.to_string() },
        )?;
        out.push(p.to_string_lossy().into_owned());
    }
    Ok(out)
}

/// Add the matches of one pattern to the output.  A pattern that
/// matched nothing is an error, and the output is left as it was.
pub fn merge_matches(pattern: &String, matched: Vec<String>, out: &mut Vec<String>) -> (r: Result<
    (),
    GlobError,
>)
    ensures
        match r {
            Result::Ok(_) => matched@.len() > 0 && final(out)@ == old(out)@ + matched@,
            Result::Err(e) => matched@.len() == 0 && final(out)@ == old(out)@ && (match e {
                GlobError::NoMatches { pattern: p } => p@ == pattern@,
                _ => false,
            }),
        },
{
    if matched.len() == 0 {
        Result::Err(GlobError::NoMatches { pattern: pattern.clone() })
    } else {
        let mut m = matched;
        out.append(&mut m);
        Result::Ok(())
    }
}

/// Expand glob patterns into matching paths.
///
/// An argument with pattern characters is expanded against the
/// filesystem and must match something; any other argument passes
/// through unchanged.  The combined result is sorted.  When no argument
/// is a pattern the result is exactly the arguments, sorted; an error
/// always names the pattern it arose from.
pub fn expand_globs(patterns: &Vec<String>) -> (r: Result<Vec<String>, GlobError>)
    ensures
        match r {
            Result::Ok(v) => {
                &&& sorted_strs(v@)
                &&& forall|i: int|
                    0 <= i < patterns@.len() && !has_glob_char(patterns@[i]@)
                        ==> seq_views(v@).contains(patterns@[i]@)
                &&& (forall|i: int| 0 <= i < patterns@.len() ==> !has_glob_char(patterns@[i]@))
                    ==> seq_views(v@).to_multiset() == seq_views(patterns@).to_multiset()
            },
            Result::Err(e) => exists|i: int|
                0 <= i < patterns@.len() && has_glob_char(patterns@[i]@) && (match e {
                    GlobError::InvalidPattern { pattern: p, .. } => p@ == patterns@[i]@,
                    GlobError::ExpansionFailed { pattern: p, .. } => p@ == patterns@[i]@,
                    GlobError::NoMatches { pattern: p } => p@ == patterns@[i]@,
                }),
        },
{
    let mut all: Vec<String> = Vec::new();
    let mut k: usize = 0;
    while k < patterns.len()
        invariant
            k <= patterns@.len(),
            forall|i: int|
                0 <= i < k && !has_glob_char(patterns@[i]@) ==> seq_views(all@).contains(
                    patterns@[i]@,
                ),
            (forall|i: int| 0 <= i < k ==> !has_glob_char(patterns@[i]@)) ==> seq_views(all@)
                =~= seq_views(patterns@.take(k as int)),
        decreases patterns@.len() - k,
    {
        let pat = &patterns[k];
        if is_glob_pattern(pat.as_str()) {
            let matched = match glob_once(pat) {
                Result::Ok(m) => m,
                Result::Err(e) => {
                    proof {
                        assert(has_glob_char(patterns@[k as int]@));
                    }
                    return Result::Err(e);
                },
            };
            let ghost before = all@;
            let ghost mview = matched@;
            match merge_matches(pat, matched, &mut all) {
                Result::Ok(_) => {},
                Result::Err(e) => {
                    proof {
                        assert(has_glob_char(patterns@[k as int]@));
                    }
                    return Result::Err(e);
                },
            }
            proof {
                assert(seq_views(all@) =~= seq_views(before) + seq_views(mview));
                assert forall|i: int|
                    0 <= i < k + 1 && !has_glob_char(patterns@[i]@) implies seq_views(
                    all@,
                ).contains(patterns@[i]@) by {
                    assert(i < k);
                    let w = choose|w: int|
                        0 <= w < seq_views(before).len() && seq_views(before)[w] == patterns@[i]@;
                    assert(seq_views(all@)[w] == patterns@[i]@);
                }
            }
        } else {
            let ghost before = all@;
            all.push(pat.clone());
            proof {
                assert(seq_views(all@) =~= seq_views(before).push(patterns@[k as int]@));
                assert forall|i: int|
                    0 <= i < k + 1 && !has_glob_char(patterns@[i]@) implies seq_views(
                    all@,
                ).contains(patterns@[i]@) by {
                    if i < k {
                        let w = choose|w: int|
                            0 <= w < seq_views(before).len() && seq_views(before)[w]
                                == patterns@[i]@;
                        assert(seq_views(all@)[w] == patterns@[i]@);
                    } else {
                        assert(seq_views(all@)[seq_views(all@).len() - 1] == patterns@[i]@);
                    }
                }
                if (forall|i: int| 0 <= i < k + 1 ==> !has_glob_char(patterns@[i]@)) {
                    assert(seq_views(before) =~= seq_views(patterns@.take(k as int)));
                    assert(seq_views(all@) =~= seq_views(patterns@.take(k as int + 1)));
                }
            }
        }
        k = k + 1;
    }
    proof {
        if (forall|i: int| 0 <= i < patterns@.len() ==> !has_glob_char(patterns@[i]@)) {
            assert(patterns@.take(patterns@.len() as int) =~= patterns@);
        }
    }
    let ghost unsorted = all@;
    sort_strings(&mut all);
    proof {
        assert forall|i: int|
            0 <= i < patterns@.len() && !has_glob_char(patterns@[i]@) implies seq_views(
            all@,
        ).contains(patterns@[i]@) by {
            assert(seq_views(unsorted).contains(patterns@[i]@));
            seq_views(unsorted).to_multiset_ensures();
            seq_views(all@).to_multiset_ensures();
            assert(seq_views(unsorted).to_multiset().count(patterns@[i]@) > 0);
        }
    }
    Result::Ok(all)
}

impl GlobError {
    /// The message text of this error, for display layers to use.
    pub fn message(&self) -> (r: String)
        ensures
            r@ == spec_glob_message(self),
    {
        let mut s = String::new();
        match self {
            GlobError::InvalidPattern { pattern, reason } => {
                s.append("invalid glob pattern '");
                s.append(pattern.as_str());
                s.append("': ");
                s.append(reason.as_str());
            },
            GlobError::ExpansionFailed { pattern, reason } => {
                s.append("failed to expand glob pattern '");
                s.append(pattern.as_str());
                s.append("': ");
                s.append(reason.as_str());
            },
            GlobError::NoMatches { pattern } => {
                s.append("no files matched pattern: ");
                s.append(pattern.as_str());
            },
        }
        proof {
            assert(s@ =~= spec_glob_message(self));
        }
        s
    }
}

/// The pattern a glob error names.
pub open spec fn glob_err_pattern(e: &GlobError) -> Seq<char> {
    match e {
        GlobError::InvalidPattern { pattern, .. } => pattern@,
        GlobError::ExpansionFailed { pattern, .. } => pattern@,
        GlobError::NoMatches { pattern } => pattern@,
    }
}

/// The message text of a glob error.
pub open spec fn spec_glob_message(e: &GlobError) -> Seq<char> {
    match e {
        GlobError::InvalidPattern { pattern, reason } => "invalid glob pattern '"@ + pattern@
            + "': "@ + reason@,
        GlobError::ExpansionFailed { pattern, reason } => "failed to expand glob pattern '"@
            + pattern@ + "': "@ + reason@,
        GlobError::NoMatches { pattern } => "no files matched pattern: "@ + pattern@,
    }
}

} // verus!
