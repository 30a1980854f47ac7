//! Rendering of every failure as a single human-readable string.
//!
//! Each stage of an operation (spawning the tool, acquiring its standard
//! input, writing or flushing the payload, waiting for termination, reading
//! or extracting an archive) has its own message shape: a fixed stage marker,
//! followed where applicable by the file path involved and by the underlying
//! platform error.  The spec functions below pin each message exactly, and
//! the lemmas state the two facts callers care about: a message begins with
//! its stage marker and carries the path it speaks of.

use vstd::prelude::*;
use vstd::string::*;

verus! {

/// `needle` occurs contiguously somewhere inside `hay`.
pub open spec fn seq_contains(hay: Seq<char>, needle: Seq<char>) -> bool {
    exists|i: int|
        0 <= i && i + needle.len() <= hay.len() && #[trigger] hay.subrange(
            i,
            i + needle.len() as int,
        ) == needle
}

/// `hay` begins with `prefix`.
pub open spec fn seq_starts_with(hay: Seq<char>, prefix: Seq<char>) -> bool {
    prefix.len() <= hay.len() && hay.subrange(0, prefix.len() as int) == prefix
}

pub open spec fn spec_spawn_error_message(exe_path: Seq<char>, cause: Seq<char>) -> Seq<char> {
    "Failed to start UndertaleModCli command "@ + exe_path + ": "@ + cause
}

pub open spec fn spec_pipe_error_message() -> Seq<char> {
    "Failed to open stdin for UndertaleModCli command"@
}

pub open spec fn spec_write_error_message(cause: Seq<char>) -> Seq<char> {
    "Failed to write base data directory to UndertaleModCli stdin: "@ + cause
}

pub open spec fn spec_flush_error_message(cause: Seq<char>) -> Seq<char> {
    "Failed to flush UndertaleModCli stdin: "@ + cause
}

pub open spec fn spec_wait_error_message(cause: Seq<char>) -> Seq<char> {
    "Failed to wait for UndertaleModCli command: "@ + cause
}

pub open spec fn spec_exit_status_error_message() -> Seq<char> {
    "UndertaleModCli command exited with a failure status"@
}

pub open spec fn spec_launch_error_message(cause: Seq<char>) -> Seq<char> {
    "Failed to start the game executable: "@ + cause
}

pub open spec fn spec_read_error_message(path: Seq<char>, cause: Seq<char>) -> Seq<char> {
    "Error reading file "@ + path + ": "@ + cause
}

pub open spec fn spec_extract_error_message(path: Seq<char>, cause: Seq<char>) -> Seq<char> {
    "Error extracting file "@ + path + ": "@ + cause
}

pub fn spawn_error_message(exe_path: &str, cause: &str) -> (r: String)
    ensures
        r@ == spec_spawn_error_message(exe_path@, cause@),
{
    let mut r = "Failed to start UndertaleModCli command ".to_owned();
    r.append(exe_path);
    r.append(": ");
    r.append(cause);
    proof {
        assert(r@ =~= spec_spawn_error_message(exe_path@, cause@));
    }
    r
}

pub fn pipe_error_message() -> (r: String)
    ensures
        r@ == spec_pipe_error_message(),
{
    "Failed to open stdin for UndertaleModCli command".to_owned()
}

pub fn write_error_message(cause: &str) -> (r: String)
    ensures
        r@ == spec_write_error_message(cause@),
{
    let mut r = "Failed to write base data directory to UndertaleModCli stdin: ".to_owned();
    r.append(cause);
    r
}

pub fn flush_error_message(cause: &str) -> (r: String)
    ensures
        r@ == spec_flush_error_message(cause@),
{
    let mut r = "Failed to flush UndertaleModCli stdin: ".to_owned();
    r.append(cause);
    r
}

pub fn wait_error_message(cause: &str) -> (r: String)
    ensures
        r@ == spec_wait_error_message(cause@),
{
    let mut r = "Failed to wait for UndertaleModCli command: ".to_owned();
    r.append(cause);
    r
}

pub fn exit_status_error_message() -> (r: String)
    ensures
        r@ == spec_exit_status_error_message(),
{
    "UndertaleModCli command exited with a failure status".to_owned()
}

pub fn launch_error_message(cause: &str) -> (r: String)
    ensures
        r@ == spec_launch_error_message(cause@),
{
    let mut r = "Failed to start the game executable: ".to_owned();
    r.append(cause);
    r
}

pub fn read_error_message(path: &str, cause: &str) -> (r: String)
    ensures
        r@ == spec_read_error_message(path@, cause@),
{
    let mut r = "Error reading file ".to_owned();
    r.append(path);
    r.append(": ");
    r.append(cause);
    proof {
        assert(r@ =~= spec_read_error_message(path@, cause@));
    }
    r
}

pub fn extract_error_message(path: &str, cause: &str) -> (r: String)
    ensures
        r@ == spec_extract_error_message(path@, cause@),
{
    let mut r = "Error extracting file ".to_owned();
    r.append(path);
    r.append(": ");
    r.append(cause);
    proof {
        assert(r@ =~= spec_extract_error_message(path@, cause@));
    }
    r
}

/// Inside `front + mid + back`, the `mid` part occurs verbatim.
proof fn lemma_middle_is_contained(front: Seq<char>, mid: Seq<char>, back: Seq<char>)
    ensures
        seq_contains(front + mid + back, mid),
{
    let hay = front + mid + back;
    let i = front.len() as int;
    assert(hay.subrange(i, i + mid.len() as int) =~= mid);
    assert(0 <= i && i + mid.len() <= hay.len() && hay.subrange(i, i + mid.len() as int) == mid);
}

/// A spawn failure's message names the executable path that could not be
/// started and begins with the marker that identifies the spawn stage.
pub proof fn lemma_spawn_error_mentions_path(exe_path: Seq<char>, cause: Seq<char>)
    ensures
        seq_contains(spec_spawn_error_message(exe_path, cause), exe_path),
        seq_starts_with(
            spec_spawn_error_message(exe_path, cause),
            "Failed to start UndertaleModCli command "@,
        ),
{
    let front = "Failed to start UndertaleModCli command "@;
    let back = ": "@ + cause;
    assert(spec_spawn_error_message(exe_path, cause) =~= front + exe_path + back);
    lemma_middle_is_contained(front, exe_path, back);
    assert(spec_spawn_error_message(exe_path, cause).subrange(0, front.len() as int) =~= front);
}

/// An extraction failure's message names the archive path that was being
/// extracted and begins with the marker that identifies the extraction stage.
pub proof fn lemma_extract_error_mentions_path(path: Seq<char>, cause: Seq<char>)
    ensures
        seq_contains(spec_extract_error_message(path, cause), path),
        seq_starts_with(spec_extract_error_message(path, cause), "Error extracting file "@),
{
    let front = "Error extracting file "@;
    let back = ": "@ + cause;
    assert(spec_extract_error_message(path, cause) =~= front + path + back);
    lemma_middle_is_contained(front, path, back);
    assert(spec_extract_error_message(path, cause).subrange(0, front.len() as int) =~= front);
}

/// A read failure's message names the file path that could not be read and
/// begins with the marker that identifies the read stage.
pub proof fn lemma_read_error_mentions_path(path: Seq<char>, cause: Seq<char>)
    ensures
        seq_contains(spec_read_error_message(path, cause), path),
        seq_starts_with(spec_read_error_message(path, cause), "Error reading file "@),
{
    let front = "Error reading file "@;
    let back = ": "@ + cause;
    assert(spec_read_error_message(path, cause) =~= front + path + back);
    lemma_middle_is_contained(front, path, back);
    assert(spec_read_error_message(path, cause).subrange(0, front.len() as int) =~= front);
}

} // verus!
