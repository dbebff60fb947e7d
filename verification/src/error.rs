//! Error kinds for move-and-link operations.
//!
//! Every kind carries the paths involved, so a caller can build status
//! lines and recovery guidance without re-deriving any path logic.

use vstd::prelude::*;

verus! {

/// Errors that a move-and-link operation can end in.
#[derive(Debug)]
pub enum MvlnError {
    /// Source file or directory not found.
    SourceNotFound { path: String },
    /// Cannot access the source (permission denied, and the like).
    SourceAccessError { path: String, reason: String },
    /// Destination already exists and overwriting was not asked for.
    DestinationExists { path: String },
    /// Source is a directory but directory moves were not asked for.
    IsDirectory { path: String },
    /// Source and destination are the same path.
    SameSourceAndDest { path: String },
    /// Destination lies inside the source directory.
    DestinationInsideSource { src: String, dest: String },
    /// Cannot replace an entry of one kind with one of another.
    TypeMismatch { src: String, dest: String, src_type: String, dest_type: String },
    /// The move itself failed.
    MoveFailed { src: String, dest: String, reason: String },
    /// The copy of a cross-filesystem move failed.
    CopyFailed { src: String, dest: String, reason: String },
    /// The copy succeeded but the source could not be removed: the data
    /// now exists in both places.
    RemoveFailed { src: String, dest: String, reason: String },
    /// The replacement symlink could not be created; the moved data is
    /// safe at `target`.
    SymlinkFailed { link: String, target: String, reason: String },
    /// A destination directory could not be created.
    CreateDirFailed { path: String, reason: String },
    /// The destination path cannot be used.
    InvalidDestination { reason: String },
    /// A source path cannot be used.
    InvalidPath { path: String, reason: String },
    /// Expanding the source patterns failed.
    GlobExpansionFailed { reason: String },
    /// Several operations ran and this many failed.
    BatchOperationFailed { count: usize },
    /// Any other input/output failure.
    Io { reason: String },
}

/// The digit character of a value below ten.
pub open spec fn digit_char(d: nat) -> char {
    if d == 0 {
        '0'
    } else if d == 1 {
        '1'
    } else if d == 2 {
        '2'
    } else if d == 3 {
        '3'
    } else if d == 4 {
        '4'
    } else if d == 5 {
        '5'
    } else if d == 6 {
        '6'
    } else if d == 7 {
        '7'
    } else if d == 8 {
        '8'
    } else {
        '9'
    }
}

/// The decimal digits of a number, most significant first.
pub open spec fn dec_digits(n: nat) -> Seq<char>
    decreases n,
{
    if n < 10 {
        seq![digit_char(n)]
    } else {
        dec_digits(n / 10).push(digit_char(n % 10))
    }
}

/// The text of one decimal digit.
fn digit_str(d: usize) -> (r: &'static str)
    requires
        d < 10,
    ensures
        r@ == seq![digit_char(d as nat)],
{
    proof {
        reveal_strlit("0");
        reveal_strlit("1");
        reveal_strlit("2");
        reveal_strlit("3");
        reveal_strlit("4");
        reveal_strlit("5");
        reveal_strlit("6");
        reveal_strlit("7");
        reveal_strlit("8");
        reveal_strlit("9");
    }
    let r: &'static str = if d == 0 {
        "0"
    } else if d == 1 {
        "1"
    } else if d == 2 {
        "2"
    } else if d == 3 {
        "3"
    } else if d == 4 {
        "4"
    } else if d == 5 {
        "5"
    } else if d == 6 {
        "6"
    } else if d == 7 {
        "7"
    } else if d == 8 {
        "8"
    } else {
        "9"
    };
    proof {
        assert(r@ =~= seq![digit_char(d as nat)]);
    }
    r
}

/// Render a number in decimal.
pub fn usize_to_string(n: usize) -> (r: String)
    ensures
        r@ == dec_digits(n as nat),
    decreases n,
{
    if n < 10 {
        let mut s = String::new();
        s.append(digit_str(n));
        proof {
            assert(s@ =~= seq![digit_char(n as nat)]);
        }
        s
    } else {
        let mut s = usize_to_string(n / 10);
        s.append(digit_str(n % 10));
        proof {
            assert(s@ =~= dec_digits((n / 10) as nat).push(digit_char((n % 10) as nat)));
        }
        s
    }
}

/// The message text of an error kind.
pub open spec fn spec_message(e: &MvlnError) -> Seq<char> {
    match e {
        MvlnError::SourceNotFound { path } => "source not found: "@ + path@,
        MvlnError::SourceAccessError { path, reason } => "cannot access source "@ + path@ + ": "@
            + reason@,
        MvlnError::DestinationExists { path } => "destination already exists: "@ + path@,
        MvlnError::IsDirectory { path } => "source is a directory: "@ + path@,
        MvlnError::SameSourceAndDest { path } => "source and destination are the same: "@ + path@,
        MvlnError::DestinationInsideSource { src, dest } => "cannot move directory into itself: "@
            + src@ + " -> "@ + dest@,
        MvlnError::TypeMismatch { src, dest, src_type, dest_type } => (
        "type mismatch: cannot replace "@ + dest_type@ + " with "@ + src_type@ + ": "@ + src@
            + " -> "@ + dest@),
        MvlnError::MoveFailed { src, dest, reason } => "failed to move "@ + src@ + " to "@ + dest@
            + ": "@ + reason@,
        MvlnError::CopyFailed { src, dest, reason } => "failed to copy "@ + src@ + " to "@ + dest@
            + ": "@ + reason@,
        MvlnError::RemoveFailed { src, reason, .. } => "copied but failed to remove source "@
            + src@ + ": "@ + reason@,
        MvlnError::SymlinkFailed { link, target, reason } => "failed to create symlink "@ + link@
            + " -> "@ + target@ + ": "@ + reason@,
        MvlnError::CreateDirFailed { path, reason } => "failed to create directory "@ + path@
            + ": "@ + reason@,
        MvlnError::InvalidDestination { reason } => "invalid destination: "@ + reason@,
        MvlnError::InvalidPath { path, reason } => "invalid path "@ + path@ + ": "@ + reason@,
        MvlnError::GlobExpansionFailed { reason } => "glob expansion failed: "@ + reason@,
        MvlnError::BatchOperationFailed { count } => dec_digits(*count as nat)
            + " operation(s) failed"@,
        MvlnError::Io { reason } => "I/O error: "@ + reason@,
    }
}

impl MvlnError {
    /// The message text of this error, for display layers to use.
    pub fn message(&self) -> (r: String)
        ensures
            r@ == spec_message(self),
    {
        let mut s = String::new();
        match self {
            MvlnError::SourceNotFound { path } => {
                s.append("source not found: ");
                s.append(path.as_str());
            },
            MvlnError::SourceAccessError { path, reason } => {
                s.append("cannot access source ");
                s.append(path.as_str());
                s.append(": ");
                s.append(reason.as_str());
            },
            MvlnError::DestinationExists { path } => {
                s.append("destination already exists: ");
                s.append(path.as_str());
            },
            MvlnError::IsDirectory { path } => {
                s.append("source is a directory: ");
                s.append(path.as_str());
            },
            MvlnError::SameSourceAndDest { path } => {
                s.append("source and destination are the same: ");
                s.append(path.as_str());
            },
            MvlnError::DestinationInsideSource { src, dest } => {
                s.append("cannot move directory into itself: ");
                s.append(src.as_str());
                s.append(" -> ");
                s.append(dest.as_str());
            },
            MvlnError::TypeMismatch { src, dest, src_type, dest_type } => {
                s.append("type mismatch: cannot replace ");
                s.append(dest_type.as_str());
                s.append(" with ");
                s.append(src_type.as_str());
                s.append(": ");
                s.append(src.as_str());
                s.append(" -> ");
                s.append(dest.as_str());
            },
            MvlnError::MoveFailed { src, dest, reason } => {
                s.append("failed to move ");
                s.append(src.as_str());
                s.append(" to ");
                s.append(dest.as_str());
                s.append(": ");
                s.append(reason.as_str());
            },
            MvlnError::CopyFailed { src, dest, reason } => {
                s.append("failed to copy ");
                s.append(src.as_str());
                s.append(" to ");
                s.append(dest.as_str());
                s.append(": ");
                s.append(reason.as_str());
            },
            MvlnError::RemoveFailed { src, dest: _, reason } => {
                s.append("copied but failed to remove source ");
                s.append(src.as_str());
                s.append(": ");
                s.append(reason.as_str());
            },
            MvlnError::SymlinkFailed { link, target, reason } => {
                s.append("failed to create symlink ");
                s.append(link.as_str());
                s.append(" -> ");
                s.append(target.as_str());
                s.append(": ");
                s.append(reason.as_str());
            },
            MvlnError::CreateDirFailed { path, reason } => {
                s.append("failed to create directory ");
                s.append(path.as_str());
                s.append(": ");
                s.append(reason.as_str());
            },
            MvlnError::InvalidDestination { reason } => {
                s.append("invalid destination: ");
                s.append(reason.as_str());
            },
            MvlnError::InvalidPath { path, reason } => {
                s.append("invalid path ");
                s.append(path.as_str());
                s.append(": ");
                s.append(reason.as_str());
            },
            MvlnError::GlobExpansionFailed { reason } => {
                s.append("glob expansion failed: ");
                s.append(reason.as_str());
            },
            MvlnError::BatchOperationFailed { count } => {
                let digits = usize_to_string(*count);
                s.append(digits.as_str());
                s.append(" operation(s) failed");
            },
            MvlnError::Io { reason } => {
                s.append("I/O error: ");
                s.append(reason.as_str());
            },
        }
        proof {
            assert(s@ =~= spec_message(self));
        }
        s
    }
}

} // verus!
