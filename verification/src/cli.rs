//! Command-line support: the parsed argument set, its translation into
//! engine options, and the helpers a command line needs to echo paths
//! back at the user.

use vstd::prelude::*;

use crate::glob_expand::{
    expand_globs, glob_err_pattern, has_glob_char, is_glob_pattern, sorted_strs, spec_glob_message,
    GlobError,
};
use crate::error::MvlnError;
use crate::operation::MoveOptions;
use crate::path_model::{paths_same, same_path, seq_views};

verus! {

/// The parsed command line.
pub struct Cli {
    /// Source file(s) or directory to move.
    pub source: Vec<String>,
    /// Destination path (file or directory).
    pub dest: String,
    /// Use relative paths for symlinks (the default).
    pub relative: bool,
    /// Use absolute paths for symlinks.
    pub absolute: bool,
    /// Move a whole directory instead of refusing one.
    pub whole_dir: bool,
    /// Verbose output.
    pub verbose: bool,
}

impl Cli {
    /// Translate the command line into the engine's options.  Neither
    /// overwriting nor a dry run can be asked for on this command
    /// line, so both are off.
    pub fn to_move_options(&self) -> (r: MoveOptions)
        ensures
            r.absolute == self.absolute,
            !r.force,
            !r.dry_run,
    {
        MoveOptions { absolute: self.absolute, force: false, dry_run: false }
    }
}

/// Whether a character has the Unicode White_Space property.  The
/// property is a fixed set of code points, so this is a function of
/// the character alone.
pub uninterp spec fn is_unicode_whitespace(c: char) -> bool;

/// Relies on char::is_whitespace: whether the character has the
/// Unicode White_Space property.
#[verifier::external_body]
fn char_is_whitespace(c: char) -> (r: bool)
    ensures
        r == is_unicode_whitespace(c),
{
    c.is_whitespace()
}

/// The characters that make a text unsafe to paste into a shell
/// unquoted: whitespace, and quoting and expansion characters.
pub open spec fn is_shell_special(c: char) -> bool {
    ||| is_unicode_whitespace(c)
    ||| c == '\''
    ||| c == '"'
    ||| c == '\\'
    ||| c == '$'
    ||| c == '`'
    ||| c == '!'
    ||| c == '*'
    ||| c == '?'
    ||| c == '['
}

/// One character under single quotes: a quote becomes `'\''`, all else
/// stands as it is.
pub open spec fn esc1(c: char) -> Seq<char> {
    if c == '\'' {
        seq!['\'', '\\', '\'', '\'']
    } else {
        seq![c]
    }
}

/// A text with each character escaped for single quotes.
pub open spec fn escape_chars(s: Seq<char>) -> Seq<char>
    decreases s.len(),
{
    if s.len() == 0 {
        Seq::empty()
    } else {
        esc1(s[0]) + escape_chars(s.drop_first())
    }
}

/// The shell-safe form of a text: unchanged when it holds nothing
/// special, else wrapped in single quotes with embedded quotes
/// escaped.
pub open spec fn spec_shell_escape(s: Seq<char>) -> Seq<char> {
    if forall|i: int| 0 <= i < s.len() ==> !is_shell_special(s[i]) {
        s
    } else {
        seq!['\''] + escape_chars(s) + seq!['\'']
    }
}

/// Escaping one more character appends its escape.
proof fn lemma_escape_push(x: Seq<char>, c: char)
    ensures
        escape_chars(x.push(c)) == escape_chars(x) + esc1(c),
    decreases x.len(),
{
    if x.len() == 0 {
        assert(x.push(c)[0] == c);
        assert(x.push(c).drop_first() =~= Seq::<char>::empty());
        assert(esc1(c) + escape_chars(Seq::<char>::empty()) =~= esc1(c));
        assert(escape_chars(x) + esc1(c) =~= esc1(c));
    } else {
        assert(x.push(c).drop_first() =~= x.drop_first().push(c));
        lemma_escape_push(x.drop_first(), c);
        assert(x.push(c)[0] == x[0]);
        assert(esc1(x[0]) + (escape_chars(x.drop_first()) + esc1(c)) =~= (esc1(x[0])
            + escape_chars(x.drop_first())) + esc1(c));
    }
}

/// Whether the text holds a shell-special character.
fn has_shell_special(s: &str) -> (r: bool)
    ensures
        r == !(forall|i: int| 0 <= i < s@.len() ==> !is_shell_special(s@[i])),
{
    let n = s.unicode_len();
    let mut i: usize = 0;
    while i < n
        invariant
            n == s@.len(),
            i <= n,
            forall|j: int| 0 <= j < i ==> !is_shell_special(s@[j]),
        decreases n - i,
    {
        let c = s.get_char(i);
        if char_is_whitespace(c) || c == '\'' || c == '"' || c == '\\' || c == '$' || c == '`' || c
            == '!' || c == '*' || c == '?' || c == '[' {
            return true;
        }
        i = i + 1;
    }
    false
}

/// Make a path safe to paste into a shell: a text with no whitespace
/// or special character passes unchanged, anything else is wrapped in
/// single quotes with embedded quotes escaped.
pub fn shell_escape(s: &str) -> (r: String)
    ensures
        r@ == spec_shell_escape(s@),
{
    if !has_shell_special(s) {
        let mut out = String::new();
        out.append(s);
        proof {
            assert(out@ =~= s@);
        }
        return out;
    }
    let mut out = String::new();
    out.append("'");
    proof {
        reveal_strlit("'");
        assert(out@ =~= seq!['\'']);
        assert(escape_chars(s@.take(0)) =~= Seq::<char>::empty());
        assert(out@ =~= seq!['\''] + escape_chars(s@.take(0)));
    }
    let n = s.unicode_len();
    let mut i: usize = 0;
    while i < n
        invariant
            n == s@.len(),
            i <= n,
            out@ == seq!['\''] + escape_chars(s@.take(i as int)),
        decreases n - i,
    {
        let c = s.get_char(i);
        let ghost done = s@.take(i as int);
        if c == '\'' {
            out.append("'\\''");
            proof {
                reveal_strlit("'\\''");
                assert("'\\''"@ =~= seq!['\'', '\\', '\'', '\'']);
            }
        } else {
            let piece = s.substring_char(i, i + 1);
            proof {
                assert(piece@ =~= seq![s@[i as int]]);
            }
            out.append(piece);
        }
        proof {
            lemma_escape_push(done, s@[i as int]);
            assert(done.push(s@[i as int]) =~= s@.take(i as int + 1));
            assert(out@ =~= seq!['\''] + escape_chars(s@.take(i as int + 1)));
        }
        i = i + 1;
    }
    out.append("'");
    proof {
        reveal_strlit("'");
        assert(s@.take(n as int) =~= s@);
        assert(out@ =~= spec_shell_escape(s@));
    }
    out
}

/// The argument, from position `i` on, that the expanded path came
/// from: the first that equals it letter for letter or names the same
/// path; a glob argument ends the search, since the expanded path is
/// then its own best display form.
pub open spec fn spec_find_original(args: Seq<Seq<char>>, expanded: Seq<char>, i: int) -> Seq<char>
    decreases args.len() - i,
{
    if i < 0 || i >= args.len() {
        expanded
    } else if args[i] == expanded {
        args[i]
    } else if same_path(args[i], expanded) {
        args[i]
    } else if has_glob_char(args[i]) {
        expanded
    } else {
        spec_find_original(args, expanded, i + 1)
    }
}

/// Find the user's own spelling of an expanded path, to keep their
/// input form in echoed commands.
pub fn find_original_input(original_args: &Vec<String>, expanded_path: &String) -> (r: String)
    ensures
        r@ == spec_find_original(seq_views(original_args@), expanded_path@, 0),
{
    let mut i: usize = 0;
    while i < original_args.len()
        invariant
            i <= original_args@.len(),
            spec_find_original(seq_views(original_args@), expanded_path@, 0) == spec_find_original(
                seq_views(original_args@),
                expanded_path@,
                i as int,
            ),
        decreases original_args@.len() - i,
    {
        let arg = &original_args[i];
        if *arg == *expanded_path {
            return arg.clone();
        }
        if paths_same(arg, expanded_path) {
            return arg.clone();
        }
        if is_glob_pattern(arg.as_str()) {
            return expanded_path.clone();
        }
        i = i + 1;
    }
    expanded_path.clone()
}

/// Expand glob patterns in source arguments; a failure is carried as
/// the operation error kind for glob expansion, with the failing
/// pattern named in its text.
pub fn expand_sources(sources: &Vec<String>) -> (r: Result<Vec<String>, MvlnError>)
    ensures
        match r {
            Result::Ok(v) => {
                &&& sorted_strs(v@)
                &&& forall|i: int|
                    0 <= i < sources@.len() && !has_glob_char(sources@[i]@) ==> seq_views(
                        v@,
                    ).contains(sources@[i]@)
                &&& (forall|i: int| 0 <= i < sources@.len() ==> !has_glob_char(sources@[i]@))
                    ==> seq_views(v@).to_multiset() == seq_views(sources@).to_multiset()
            },
            Result::Err(e) => match e {
                MvlnError::GlobExpansionFailed { reason } => exists|i: int, ge: GlobError|
                    0 <= i < sources@.len() && has_glob_char(sources@[i]@) && reason@
                        == spec_glob_message(&ge) && glob_err_pattern(&ge) == sources@[i]@,
                _ => false,
            },
        },
{
    match expand_globs(sources) {
        Result::Ok(v) => Result::Ok(v),
        Result::Err(e) => {
            let reason = e.message();
            proof {
                let i0 = choose|i: int|
                    0 <= i < sources@.len() && has_glob_char(sources@[i]@) && (match e {
                        GlobError::InvalidPattern { pattern: p, .. } => p@ == sources@[i]@,
                        GlobError::ExpansionFailed { pattern: p, .. } => p@ == sources@[i]@,
                        GlobError::NoMatches { pattern: p } => p@ == sources@[i]@,
                    });
                assert(0 <= i0 < sources@.len() && has_glob_char(sources@[i0]@) && reason@
                    == spec_glob_message(&e) && glob_err_pattern(&e) == sources@[i0]@);
            }
            Result::Err(MvlnError::GlobExpansionFailed { reason })
        },
    }
}

/// Several sources can only be moved into a directory.
pub fn validate_multi_dest(n_sources: usize, dest_is_dir: bool) -> (r: Result<(), MvlnError>)
    ensures
        match r {
            Result::Ok(_) => n_sources <= 1 || dest_is_dir,
            Result::Err(e) => n_sources > 1 && !dest_is_dir && (e
                matches MvlnError::InvalidDestination { reason } && reason@
                == "destination must be a directory when moving multiple files"@),
        },
{
    if n_sources > 1 && !dest_is_dir {
        let mut reason = String::new();
        reason.append("destination must be a directory when moving multiple files");
        proof {
            assert(reason@ =~= "destination must be a directory when moving multiple files"@);
        }
        Result::Err(MvlnError::InvalidDestination { reason })
    } else {
        Result::Ok(())
    }
}

/// A directory source is only taken when directory moves were asked
/// for; the rejection carries the directory-source error kind, and the
/// display layer adds the hint about the flag to use.
pub fn directory_gate(source: &String, is_dir: bool, whole_dir: bool) -> (r: Result<
    (),
    MvlnError,
>)
    ensures
        match r {
            Result::Ok(_) => !is_dir || whole_dir,
            Result::Err(e) => is_dir && !whole_dir && (e matches MvlnError::IsDirectory { path }
                && path@ == source@),
        },
{
    if is_dir && !whole_dir {
        Result::Err(MvlnError::IsDirectory { path: source.clone() })
    } else {
        Result::Ok(())
    }
}

/// The outcome of a batch: success only when every source went
/// through, else the number of failures.
pub fn batch_result(error_count: usize) -> (r: Result<(), MvlnError>)
    ensures
        match r {
            Result::Ok(_) => error_count == 0,
            Result::Err(e) => error_count > 0 && (e matches MvlnError::BatchOperationFailed {
                count,
            } && count == error_count),
        },
{
    if error_count == 0 {
        Result::Ok(())
    } else {
        Result::Err(MvlnError::BatchOperationFailed { count: error_count })
    }
}

} // verus!
