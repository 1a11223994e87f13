//! What copies make of the files under an output root.
//!
//! The files are taken for what a copy reads and writes: the bytes under
//! each path. A copy puts the bytes of its source under its destination and
//! replaces what was there. This is a description to reason with; the files
//! themselves are written by whoever performs the actions of a task.

use vstd::prelude::*;
use crate::task::ExtractionTaskView;

verus! {

/// The files after `task` has been copied: the destination holds the bytes
/// of the source, and every other path holds what it held.
pub open spec fn copied(files: Map<Seq<char>, Seq<u8>>, task: ExtractionTaskView) -> Map<
    Seq<char>,
    Seq<u8>,
> {
    files.insert(task.destination_path, files[task.source_path])
}

/// The files after the copies `tasks`, made in order.
pub open spec fn after_copies(files: Map<Seq<char>, Seq<u8>>, tasks: Seq<ExtractionTaskView>) -> Map<
    Seq<char>,
    Seq<u8>,
>
    decreases tasks.len(),
{
    if tasks.len() == 0 {
        files
    } else {
        copied(after_copies(files, tasks.drop_last()), tasks.last())
    }
}

/// Whether no copy of `tasks` writes what a copy of `tasks` reads: the
/// output tree holds none of the stored files.
pub open spec fn keeps_sources(tasks: Seq<ExtractionTaskView>) -> bool {
    forall|i: int, j: int|
        0 <= i < tasks.len() && 0 <= j < tasks.len() ==> (#[trigger] tasks[i]).destination_path != (
        #[trigger] tasks[j]).source_path
}

/// The position of the last copy of `tasks` that writes `path`, or -1 where
/// none does.
pub open spec fn last_copy_to(tasks: Seq<ExtractionTaskView>, path: Seq<char>) -> int
    decreases tasks.len(),
{
    if tasks.len() == 0 {
        -1
    } else if tasks.last().destination_path == path {
        tasks.len() - 1
    } else {
        last_copy_to(tasks.drop_last(), path)
    }
}

/// `last_copy_to` is a position in `tasks` whose copy writes `path`, or -1
/// where `path` is no destination at all.
pub proof fn lemma_last_copy_to(tasks: Seq<ExtractionTaskView>, path: Seq<char>)
    ensures
        -1 <= last_copy_to(tasks, path) < tasks.len(),
        last_copy_to(tasks, path) >= 0 ==> tasks[last_copy_to(tasks, path)].destination_path
            == path,
        last_copy_to(tasks, path) == -1 ==> forall|i: int|
            0 <= i < tasks.len() ==> (#[trigger] tasks[i]).destination_path != path,
    decreases tasks.len(),
{
    if tasks.len() > 0 && tasks.last().destination_path != path {
        let before = tasks.drop_last();
        lemma_last_copy_to(before, path);
        if last_copy_to(before, path) == -1 {
            assert forall|i: int| 0 <= i < tasks.len() implies (
            #[trigger] tasks[i]).destination_path != path by {
                if i < before.len() {
                    assert(before[i] == tasks[i]);
                }
            }
        }
    }
}

/// After copies that keep their sources, a path holds the bytes that the
/// source of the last copy to it held before, and a path that no copy
/// writes holds what it held.
pub proof fn lemma_last_copy_wins(
    files: Map<Seq<char>, Seq<u8>>,
    tasks: Seq<ExtractionTaskView>,
    path: Seq<char>,
)
    requires
        keeps_sources(tasks),
    ensures
        last_copy_to(tasks, path) >= 0 ==> {
            &&& after_copies(files, tasks).contains_key(path)
            &&& after_copies(files, tasks)[path] == files[tasks[last_copy_to(
                tasks,
                path,
            )].source_path]
        },
        last_copy_to(tasks, path) == -1 ==> {
            &&& after_copies(files, tasks).contains_key(path) == files.contains_key(path)
            &&& after_copies(files, tasks)[path] == files[path]
        },
    decreases tasks.len(),
{
    lemma_last_copy_to(tasks, path);
    if tasks.len() > 0 {
        let before = tasks.drop_last();
        let last = tasks.last();
        lemma_last_copy_wins(files, before, path);
        lemma_last_copy_wins(files, before, last.source_path);
        lemma_last_copy_to(before, last.source_path);
    }
}

/// Whether no two copies of `tasks` write the same path: the relative paths
/// of a manifest differ from each other.
pub open spec fn destinations_differ(tasks: Seq<ExtractionTaskView>) -> bool {
    forall|i: int, j: int|
        0 <= i < j < tasks.len() ==> (#[trigger] tasks[i]).destination_path != (
        #[trigger] tasks[j]).destination_path
}

/// After copies that keep their sources and write each destination once,
/// every destination is there and holds the bytes that its source held.
pub proof fn law_copies_hold_their_sources(
    files: Map<Seq<char>, Seq<u8>>,
    tasks: Seq<ExtractionTaskView>,
    i: int,
)
    requires
        keeps_sources(tasks),
        destinations_differ(tasks),
        0 <= i < tasks.len(),
    ensures
        after_copies(files, tasks).contains_key(tasks[i].destination_path),
        after_copies(files, tasks)[tasks[i].destination_path] == files[tasks[i].source_path],
{
    let path = tasks[i].destination_path;
    lemma_last_copy_to(tasks, path);
    lemma_last_copy_wins(files, tasks, path);
}

/// Making the same copies again changes nothing: where the output tree
/// holds none of the stored files, a second run over the same tasks leaves
/// every path with the bytes that the first run gave it, and adds no path.
pub proof fn law_repeated_copies_change_nothing(
    files: Map<Seq<char>, Seq<u8>>,
    tasks: Seq<ExtractionTaskView>,
)
    requires
        keeps_sources(tasks),
    ensures
        after_copies(after_copies(files, tasks), tasks) == after_copies(files, tasks),
{
    let once = after_copies(files, tasks);
    let twice = after_copies(once, tasks);
    assert forall|path: Seq<char>|
        #[trigger] twice.dom().contains(path) == once.dom().contains(path) && (
        once.dom().contains(path) ==> twice[path] == once[path]) by {
        lemma_last_copy_to(tasks, path);
        lemma_last_copy_wins(files, tasks, path);
        lemma_last_copy_wins(once, tasks, path);
        let winner = last_copy_to(tasks, path);
        if winner >= 0 {
            let source = tasks[winner].source_path;
            lemma_last_copy_to(tasks, source);
            lemma_last_copy_wins(files, tasks, source);
        }
    }
}

} // verus!
