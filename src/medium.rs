use vstd::prelude::*;

use crate::shell::{loaded_text, next_phase, save_status, Input, Phase, StorageError};

verus! {

/// A read of `path` agrees with the files on the medium: a file that is there
/// reads as its content, one that is not fails to read.
pub open spec fn reads_as(
    files: Map<Seq<char>, Seq<char>>,
    path: Seq<char>,
    read: Result<Seq<char>, StorageError>,
) -> bool {
    if files.contains_key(path) {
        read == Ok::<Seq<char>, StorageError>(files[path])
    } else {
        read is Err
    }
}

/// The files on the medium after writing `content` to `path` with the given
/// outcome: a write that succeeded replaces the whole file, one that failed
/// leaves the medium as it was.
pub open spec fn after_write(
    files: Map<Seq<char>, Seq<char>>,
    path: Seq<char>,
    content: Seq<char>,
    write: Result<(), StorageError>,
) -> Map<Seq<char>, Seq<char>> {
    if write is Ok {
        files.insert(path, content)
    } else {
        files
    }
}

/// Saving any text to a medium that accepts the write, then loading the
/// document, gives back exactly that text, and the save reports success.
pub proof fn lemma_save_then_load(
    files: Map<Seq<char>, Seq<char>>,
    path: Seq<char>,
    s: Seq<char>,
    write: Result<(), StorageError>,
    read: Result<Seq<char>, StorageError>,
)
    requires
        write is Ok,
        reads_as(after_write(files, path, s, write), path, read),
    ensures
        save_status(write) == 0,
        loaded_text(read) == s,
{
    assert(after_write(files, path, s, write).contains_key(path));
}

/// Loading a document whose file does not exist gives the empty text.
pub proof fn lemma_missing_file_loads_empty(
    files: Map<Seq<char>, Seq<char>>,
    path: Seq<char>,
    read: Result<Seq<char>, StorageError>,
)
    requires
        !files.contains_key(path),
        reads_as(files, path, read),
    ensures
        loaded_text(read) == Seq::<char>::empty(),
{
}

/// A save that the medium refuses reports a non-zero status, leaves the
/// medium unchanged, and leaves a running shell running, ready for the next
/// command.
pub proof fn lemma_failed_save_keeps_running(
    files: Map<Seq<char>, Seq<char>>,
    path: Seq<char>,
    s: Seq<char>,
    write: Result<(), StorageError>,
    p: Phase,
)
    requires
        write is Err,
        p != Phase::Exited,
    ensures
        save_status(write) != 0,
        after_write(files, path, s, write) == files,
        next_phase(p, Input::SaveSvg) == p,
        next_phase(p, Input::SaveSvg) != Phase::Exited,
{
}

} // verus!
