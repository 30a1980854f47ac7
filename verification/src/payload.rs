//! The payload line fed to the import tool's standard input.
//!
//! The tool, once running, reads one line: the configuration folder path.
//! The feeder therefore sends the caller's path with a single line terminator
//! appended — nothing is stripped from the path and nothing more is added,
//! whatever whitespace the path itself may end with.

use vstd::prelude::*;
use vstd::string::*;

verus! {

/// The line the feeder writes: the configuration folder path with a single
/// newline appended.
pub open spec fn spec_payload_line(git_chapter_folder_path: Seq<char>) -> Seq<char> {
    git_chapter_folder_path.push('\n')
}

/// How many times `c` occurs in `s`.
pub open spec fn count_char(s: Seq<char>, c: char) -> nat
    decreases s.len(),
{
    if s.len() == 0 {
        0
    } else {
        count_char(s.drop_last(), c) + if s.last() == c {
            1nat
        } else {
            0nat
        }
    }
}

pub fn payload_line(git_chapter_folder_path: &str) -> (r: String)
    ensures
        r@ == spec_payload_line(git_chapter_folder_path@),
{
    let mut r = git_chapter_folder_path.to_owned();
    r.append("\n");
    proof {
        reveal_strlit("\n");
        assert(r@ =~= spec_payload_line(git_chapter_folder_path@));
    }
    r
}

/// The payload line carries the path unchanged and is terminated by exactly
/// one newline of the feeder's own: it is one character longer than the path,
/// ends in a newline, restores the path when that newline is dropped, and
/// holds exactly one newline more than the path itself does.
pub proof fn lemma_payload_line_single_newline(git_chapter_folder_path: Seq<char>)
    ensures
        spec_payload_line(git_chapter_folder_path).len() == git_chapter_folder_path.len() + 1,
        spec_payload_line(git_chapter_folder_path).last() == '\n',
        spec_payload_line(git_chapter_folder_path).drop_last() == git_chapter_folder_path,
        count_char(spec_payload_line(git_chapter_folder_path), '\n') == count_char(
            git_chapter_folder_path,
            '\n',
        ) + 1,
{
    let line = spec_payload_line(git_chapter_folder_path);
    assert(line.drop_last() =~= git_chapter_folder_path);
}

} // verus!
