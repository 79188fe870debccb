//! Laws of the replacement of data files.

use std::path::Path;

use vstd::prelude::*;

use crate::atomic_write;
use crate::atomic_write::{AtomicWrite, WriteAction, WriteOutcome, WriteStage, WriteView};
use crate::error::{AppError, ErrorView};
use crate::paths;
use crate::storage;
use crate::text;

verus! {

/// The files of a disk, by their paths.
pub type Disk = Map<Seq<u8>, Seq<u8>>;

/// The disk after the operation of the replacement's present stage, if that succeeds.
pub open spec fn performed(write: WriteView, disk: Disk) -> Disk {
    match write.stage {
        WriteStage::WriteTemporary => disk.insert(write.temporary, write.contents),
        WriteStage::RemoveTarget => disk.remove(write.target),
        WriteStage::Rename => disk.remove(write.temporary).insert(
            write.target,
            disk[write.temporary],
        ),
        WriteStage::CreateFolder | WriteStage::CheckTarget | WriteStage::Finished => disk,
    }
}

/// The replacement and the disk after `count` operations that succeeded.
pub open spec fn carried_out(write: WriteView, disk: Disk, count: nat) -> (WriteView, Disk)
    decreases count,
{
    if count == 0 {
        (write, disk)
    } else {
        let (earlier, now) = carried_out(write, disk, (count - 1) as nat);
        let found = now.contains_key(write.target);
        (
            earlier.at(atomic_write::next_stage(earlier.stage, found)),
            performed(earlier, now),
        )
    }
}

/// `after` is what the operation of the replacement's present stage may leave of `disk` when it fails
/// or is broken off. A write may have left anything in the temporary file; a removal or a renaming
/// has either been done or not.
pub open spec fn may_be_left(write: WriteView, disk: Disk, after: Disk) -> bool {
    match write.stage {
        WriteStage::WriteTemporary => forall|path: Seq<u8>|
            path != write.temporary ==> #[trigger] same_at(disk, after, path),
        WriteStage::RemoveTarget | WriteStage::Rename => after == disk || after == performed(
            write,
            disk,
        ),
        WriteStage::CreateFolder | WriteStage::CheckTarget | WriteStage::Finished => after == disk,
    }
}

/// The two disks hold the same at `path`.
pub open spec fn same_at(one: Disk, other: Disk, path: Seq<u8>) -> bool {
    &&& one.contains_key(path) <==> other.contains_key(path)
    &&& one.contains_key(path) ==> one[path] == other[path]
}

/// What holds of a disk while a file on it is replaced, up to the given stage: the file is as it was
/// until the temporary file holds all of the new contents, and only then makes way for it. No other
/// file is touched.
pub open spec fn is_on_its_way(write: WriteView, before: Disk, now: Disk) -> bool {
    &&& forall|path: Seq<u8>|
        path != write.target && path != write.temporary ==> #[trigger] same_at(before, now, path)
    &&& match write.stage {
        WriteStage::CreateFolder | WriteStage::WriteTemporary => same_at(before, now, write.target),
        WriteStage::CheckTarget => same_at(before, now, write.target) && now.contains_key(
            write.temporary,
        ) && now[write.temporary] == write.contents,
        WriteStage::RemoveTarget => same_at(before, now, write.target) && before.contains_key(
            write.target,
        ) && now.contains_key(write.temporary) && now[write.temporary] == write.contents,
        WriteStage::Rename => !now.contains_key(write.target) && now.contains_key(write.temporary)
            && now[write.temporary] == write.contents,
        WriteStage::Finished => now.contains_key(write.target) && now[write.target]
            == write.contents && !now.contains_key(write.temporary),
    }
}

/// After any number of operations that succeeded, the file holds its old contents whole or its new
/// contents whole, or it is missing while the temporary file holds the new contents whole.
pub proof fn no_contents_are_lost_on_the_way(write: WriteView, disk: Disk, count: nat)
    requires
        write.stage == WriteStage::CreateFolder,
        write.is_valid(),
    ensures
        ({
            let (later, now) = carried_out(write, disk, count);
            later == write.at(later.stage) && is_on_its_way(later, disk, now)
        }),
    decreases count,
{
    if count > 0 {
        no_contents_are_lost_on_the_way(write, disk, (count - 1) as nat);
        let (earlier, then) = carried_out(write, disk, (count - 1) as nat);
        let (later, now) = carried_out(write, disk, count);
        assert forall|path: Seq<u8>|
            path != write.target && path != write.temporary implies #[trigger] same_at(
            disk,
            now,
            path,
        ) by {
            assert(same_at(disk, then, path));
        }
    }
}

/// At every moment, and whichever operation fails or is broken off, the file holds its old contents
/// whole or its new contents whole, or it is missing while the temporary file holds the new contents
/// whole. No other file is touched.
pub proof fn no_contents_are_lost_in_a_failure(
    write: WriteView,
    disk: Disk,
    count: nat,
    after: Disk,
)
    requires
        write.stage == WriteStage::CreateFolder,
        write.is_valid(),
        may_be_left(
            carried_out(write, disk, count).0,
            carried_out(write, disk, count).1,
            after,
        ),
    ensures
        ({
            ||| same_at(disk, after, write.target)
            ||| after.contains_key(write.target) && after[write.target] == write.contents
            ||| !after.contains_key(write.target) && after.contains_key(write.temporary)
                && after[write.temporary] == write.contents
        }),
        forall|path: Seq<u8>|
            path != write.target && path != write.temporary ==> #[trigger] same_at(
                disk,
                after,
                path,
            ),
{
    no_contents_are_lost_on_the_way(write, disk, count);
    let (later, now) = carried_out(write, disk, count);
    if later.stage == WriteStage::WriteTemporary {
        assert(same_at(now, after, write.target));
    }
    assert forall|path: Seq<u8>|
        path != write.target && path != write.temporary implies #[trigger] same_at(
        disk,
        after,
        path,
    ) by {
        assert(same_at(disk, now, path));
        if later.stage == WriteStage::WriteTemporary {
            assert(same_at(now, after, path));
        }
    }
}

/// A replacement that fails before the old file is removed leaves that file as it was.
pub proof fn a_failed_write_keeps_the_old_file(
    write: WriteView,
    disk: Disk,
    count: nat,
    after: Disk,
)
    requires
        write.stage == WriteStage::CreateFolder,
        write.is_valid(),
        ({
            let stage = carried_out(write, disk, count).0.stage;
            ||| stage == WriteStage::CreateFolder
            ||| stage == WriteStage::WriteTemporary
            ||| stage == WriteStage::CheckTarget
        }),
        may_be_left(
            carried_out(write, disk, count).0,
            carried_out(write, disk, count).1,
            after,
        ),
    ensures
        same_at(disk, after, write.target),
{
    no_contents_are_lost_on_the_way(write, disk, count);
    let (later, now) = carried_out(write, disk, count);
    assert(later.stage == WriteStage::WriteTemporary ==> same_at(now, after, write.target));
}

/// Where only the last step fails, and the file keeps the temporary name, the failure is reported
/// and the temporary file still holds the new contents whole.
pub proof fn a_failed_renaming_is_reported_and_loses_nothing(
    write: WriteView,
    disk: Disk,
    count: nat,
    reason: String,
)
    requires
        write.stage == WriteStage::CreateFolder,
        write.is_valid(),
        carried_out(write, disk, count).0.stage == WriteStage::Rename,
    ensures
        atomic_write::write_error(WriteStage::Rename, WriteOutcome::Failed(reason)) == Some(
            ErrorView::Io {
                context: "Could not finish writing local installer data"@,
                reason: reason@,
            },
        ),
        carried_out(write, disk, count).1.contains_key(write.temporary),
        carried_out(write, disk, count).1[write.temporary] == write.contents,
{
    no_contents_are_lost_on_the_way(write, disk, count);
}

/// A replacement whose operations all succeed is over after at most five of them, and what is then
/// read from the file is what was written to it. The temporary file is gone, and every other file is
/// as it was.
pub proof fn a_finished_write_is_read_back(write: WriteView, disk: Disk, count: nat)
    requires
        write.stage == WriteStage::CreateFolder,
        write.is_valid(),
        count >= 5,
    ensures
        carried_out(write, disk, count) == (
            write.at(WriteStage::Finished),
            disk.insert(write.target, write.contents).remove(write.temporary),
        ),
{
    lemma_write_comes_to_an_end(write, disk, count);
    no_contents_are_lost_on_the_way(write, disk, count);
    let (later, now) = carried_out(write, disk, count);
    let expected = disk.insert(write.target, write.contents).remove(write.temporary);
    assert forall|path: Seq<u8>| same_at(expected, now, path) by {
        if path != write.target && path != write.temporary {
            assert(same_at(disk, now, path));
        }
    }
    assert forall|path: Seq<u8>| #[trigger] expected.contains_key(path) <==> now.contains_key(
        path,
    ) by {
        assert(same_at(expected, now, path));
    }
    assert forall|path: Seq<u8>| expected.contains_key(path) implies #[trigger] expected[path]
        == now[path] by {
        assert(same_at(expected, now, path));
    }
    assert(now =~= expected);
}

proof fn lemma_write_comes_to_an_end(write: WriteView, disk: Disk, count: nat)
    requires
        write.stage == WriteStage::CreateFolder,
        count >= 5,
    ensures
        carried_out(write, disk, count).0.stage == WriteStage::Finished,
    decreases count,
{
    if count == 5 {
        reveal_with_fuel(carried_out, 6);
    } else {
        lemma_write_comes_to_an_end(write, disk, (count - 1) as nat);
    }
}

/// Of two replacements of one file, one after the other, the later one decides what the file holds.
pub proof fn the_last_write_counts(first: WriteView, second: WriteView, disk: Disk)
    requires
        first.stage == WriteStage::CreateFolder,
        second.stage == WriteStage::CreateFolder,
        first.is_valid(),
        second.is_valid(),
        first.target == second.target,
    ensures
        ({
            let after = carried_out(second, carried_out(first, disk, 5).1, 5).1;
            after.contains_key(second.target) && after[second.target] == second.contents
        }),
{
    a_finished_write_is_read_back(second, carried_out(first, disk, 5).1, 5);
}

/// Two processes name their temporary files for one data file differently.
pub proof fn processes_use_different_names(file_name: Option<Seq<char>>, one: u32, other: u32)
    requires
        one != other,
    ensures
        atomic_write::temporary_name(file_name, one) != atomic_write::temporary_name(
            file_name,
            other,
        ),
{
    let name = match file_name {
        Some(name) => name,
        None => "state"@,
    };
    let before = "."@ + name + "-"@;
    let behind = ".tmp"@;
    let a = text::decimal(one as nat);
    let b = text::decimal(other as nat);
    text::decimal_tells_numbers_apart(one as nat, other as nat);
    if before + a + behind == before + b + behind {
        assert((before + a + behind).len() == before.len() + a.len() + behind.len());
        assert((before + b + behind).len() == before.len() + b.len() + behind.len());
        assert((before + a + behind).subrange(before.len() as int, (before.len() + a.len()) as int)
            =~= a);
        assert((before + b + behind).subrange(before.len() as int, (before.len() + b.len()) as int)
            =~= b);
    }
}

/// A temporary file never has the name of the file that it is to replace.
pub proof fn a_temporary_file_has_another_name(name: Seq<char>, process: u32)
    ensures
        atomic_write::temporary_name(Some(name), process) != name,
{
    reveal_strlit(".");
    assert(atomic_write::temporary_name(Some(name), process).len() > name.len());
}

/// `temporary` lies in `folder` under the name that the process `process` gives to the temporary file
/// for `target`: a dot, the target's own name, a hyphen, the number of the process, and `.tmp`. A
/// target without a name, or with one that is no text, counts as `state`.
pub open spec fn is_temporary_for(
    temporary: Seq<u8>,
    target: Seq<u8>,
    folder: Seq<u8>,
    process: u32,
) -> bool {
    let ending = "-"@ + text::decimal(process as nat) + ".tmp"@;
    &&& forall|name: Seq<char>|
        paths::file_name_of(target) == Some(#[trigger] vstd::utf8::encode_utf8(name))
            ==> temporary == paths::joined(folder, "."@ + name + ending)
    &&& (forall|name: Seq<char>|
        paths::file_name_of(target) != Some(#[trigger] vstd::utf8::encode_utf8(name)))
        ==> temporary == paths::joined(folder, "."@ + "state"@ + ending)
}

/// `begun` is what the replacement of the file at `target` by one with the given contents has to
/// begin with. Where the file lies in a folder it begins, whatever the contents are and however many:
/// with that target, that folder and those contents, and with nothing done yet. Where there is no
/// folder it fails and says so.
pub open spec fn is_beginning(
    begun: Result<AtomicWrite, AppError>,
    target: Seq<u8>,
    contents: Seq<u8>,
    process: u32,
) -> bool {
    match paths::parent_of(target) {
        Some(folder) => {
            &&& begun matches Ok(write)
            &&& write@.target == target
            &&& write@.folder == folder
            &&& write@.contents == contents
            &&& write@.stage == WriteStage::CreateFolder
            &&& write@.temporary != target
            &&& is_temporary_for(write@.temporary, target, folder, process)
        },
        None => {
            &&& begun matches Err(AppError::Message(text))
            &&& text@ == "The data file has no parent folder."@
        },
    }
}

proof fn lemma_beginning(
    begun: Result<AtomicWrite, AppError>,
    target: Seq<u8>,
    contents: Seq<u8>,
    process: u32,
)
    requires
        match begun {
            Ok(write) => {
                &&& atomic_write::write_start(target, contents, process) == Ok::<
                    WriteView,
                    ErrorView,
                >(write@)
                &&& write@.is_valid()
            },
            Err(error) => atomic_write::write_start(target, contents, process) == Err::<
                WriteView,
                ErrorView,
            >(error@),
        },
    ensures
        is_beginning(begun, target, contents, process),
{
    if let Some(folder) = paths::parent_of(target) {
        let ending = "-"@ + text::decimal(process as nat) + ".tmp"@;
        let file_name = paths::file_name_of(target);
        assert forall|name: Seq<char>|
            file_name == Some(#[trigger] vstd::utf8::encode_utf8(name)) implies begun->Ok_0@.temporary
            == paths::joined(folder, "."@ + name + ending) by {
            vstd::utf8::encode_utf8_valid_utf8(name);
            vstd::utf8::encode_utf8_decode_utf8(name);
            assert(atomic_write::temporary_name(Some(name), process) =~= "."@ + name + ending);
        }
        if forall|name: Seq<char>| file_name != Some(#[trigger] vstd::utf8::encode_utf8(name)) {
            if let Some(bytes) = file_name {
                if vstd::utf8::valid_utf8(bytes) {
                    vstd::utf8::decode_utf8_encode_utf8(bytes);
                    assert(file_name == Some(
                        vstd::utf8::encode_utf8(vstd::utf8::decode_utf8(bytes)),
                    ));
                }
            }
            assert(atomic_write::temporary_name(None, process) =~= "."@ + "state"@ + ending);
        }
    }
}

/// Every file that lies in a folder can be replaced, by any contents, in any process. The
/// replacement is of that file, in that folder, by those contents, and a file that lies in no folder
/// is the only one that is refused.
pub proof fn every_file_in_a_folder_can_be_replaced(
    path: &Path,
    contents: Vec<u8>,
    process: u32,
    begun: Result<AtomicWrite, AppError>,
)
    requires
        call_ensures(atomic_write::write_atomic, (path, contents, process), begun),
    ensures
        is_beginning(begun, paths::path_bytes(path), contents@, process),
{
    lemma_beginning(begun, paths::path_bytes(path), contents@, process);
}

/// An installation state is saved in its place below the installation folder, whatever its encoding
/// holds, if it could be encoded. If not, the reason is reported.
pub proof fn every_encoded_state_can_be_saved(
    install_root: &Path,
    encoded: Result<Vec<u8>, String>,
    process: u32,
    begun: Result<AtomicWrite, AppError>,
)
    requires
        call_ensures(storage::save_state, (install_root, encoded, process), begun),
    ensures
        match encoded {
            Ok(contents) => is_beginning(
                begun,
                paths::joined(
                    paths::joined(paths::path_bytes(install_root), ".sunrise"@),
                    "install-state.json"@,
                ),
                contents@,
                process,
            ),
            Err(why) => begun matches Err(AppError::Json { reason }) && reason@ == why@,
        },
{
    if let Ok(contents) = encoded {
        lemma_beginning(
            begun,
            paths::state_location(paths::path_bytes(install_root)),
            contents@,
            process,
        );
    }
}

/// Preferences are saved in their place in the data folder, whatever their encoding holds, if the
/// folder could be created and they could be encoded. If not, the reason is reported, and that of the
/// folder before that of the encoding.
pub proof fn all_encoded_preferences_can_be_saved(
    data_dir: &Path,
    created: Result<(), String>,
    encoded: Result<Vec<u8>, String>,
    process: u32,
    begun: Result<AtomicWrite, AppError>,
)
    requires
        call_ensures(storage::save_preferences, (data_dir, created, encoded, process), begun),
    ensures
        match (created, encoded) {
            (Ok(()), Ok(contents)) => is_beginning(
                begun,
                paths::joined(paths::path_bytes(data_dir), "preferences.json"@),
                contents@,
                process,
            ),
            (Ok(()), Err(why)) => begun matches Err(AppError::Json { reason }) && reason@ == why@,
            (Err(why), _) => {
                &&& begun matches Err(AppError::Io { context, reason })
                &&& context@ == "Could not create the application data folder"@
                &&& reason@ == why@
            },
        },
{
    if let (Ok(()), Ok(contents)) = (created, encoded) {
        lemma_beginning(
            begun,
            paths::preferences_location(paths::path_bytes(data_dir)),
            contents@,
            process,
        );
    }
}

/// The operations that a replacement asks for, stage by stage: the folder is created, all of the
/// contents are written to the temporary file, the target is looked for and removed, and the
/// temporary file takes its name.
pub proof fn a_replacement_asks_for_its_own_files(write: AtomicWrite, action: WriteAction<'_>)
    requires
        call_ensures(AtomicWrite::action, (&write,), action),
    ensures
        write@.temporary != write@.target,
        write@.stage == WriteStage::CreateFolder ==> {
            &&& action matches WriteAction::CreateFolder(folder)
            &&& paths::path_bytes(folder) == write@.folder
        },
        write@.stage == WriteStage::WriteTemporary ==> {
            &&& action matches WriteAction::WriteFile(file, contents)
            &&& paths::path_bytes(file) == write@.temporary
            &&& contents@ == write@.contents
        },
        write@.stage == WriteStage::CheckTarget ==> {
            &&& action matches WriteAction::CheckFile(file)
            &&& paths::path_bytes(file) == write@.target
        },
        write@.stage == WriteStage::RemoveTarget ==> {
            &&& action matches WriteAction::RemoveFile(file)
            &&& paths::path_bytes(file) == write@.target
        },
        write@.stage == WriteStage::Rename ==> {
            &&& action matches WriteAction::Rename(from, to)
            &&& paths::path_bytes(from) == write@.temporary
            &&& paths::path_bytes(to) == write@.target
        },
        write@.stage == WriteStage::Finished <==> action is Nothing,
{
}

/// `result` reports that the launcher failed at what `context` says, for the reason of `outcome`.
pub open spec fn is_failure(
    result: Result<(), AppError>,
    outcome: WriteOutcome,
    context: Seq<char>,
) -> bool {
    &&& outcome matches WriteOutcome::Failed(why)
    &&& result matches Err(AppError::Io { context: doing, reason })
    &&& doing@ == context
    &&& reason@ == why@
}

/// A replacement goes on to the next operation unless one failed. It never changes its files or its
/// contents. Where one failed it stays at that operation and reports what it was doing; looking for
/// the target is no operation that can fail.
pub proof fn a_replacement_goes_on_unless_it_failed(
    write: &mut AtomicWrite,
    outcome: WriteOutcome,
    result: Result<(), AppError>,
)
    requires
        call_ensures(AtomicWrite::advance, (write, outcome), result),
    ensures
        final(write)@.target == old(write)@.target,
        final(write)@.folder == old(write)@.folder,
        final(write)@.temporary == old(write)@.temporary,
        final(write)@.contents == old(write)@.contents,
        final(write)@.temporary != final(write)@.target,
        result is Err ==> final(write)@.stage == old(write)@.stage,
        match old(write)@.stage {
            WriteStage::CreateFolder => if outcome is Failed {
                is_failure(result, outcome, "Could not create a data folder"@)
            } else {
                result is Ok && final(write)@.stage == WriteStage::WriteTemporary
            },
            WriteStage::WriteTemporary => if outcome is Failed {
                is_failure(result, outcome, "Could not write local installer data"@)
            } else {
                result is Ok && final(write)@.stage == WriteStage::CheckTarget
            },
            WriteStage::CheckTarget => result is Ok && if outcome is Found {
                final(write)@.stage == WriteStage::RemoveTarget
            } else {
                final(write)@.stage == WriteStage::Rename
            },
            WriteStage::RemoveTarget => if outcome is Failed {
                is_failure(result, outcome, "Could not replace local installer data"@)
            } else {
                result is Ok && final(write)@.stage == WriteStage::Rename
            },
            WriteStage::Rename => if outcome is Failed {
                is_failure(result, outcome, "Could not finish writing local installer data"@)
            } else {
                result is Ok && final(write)@.stage == WriteStage::Finished
            },
            WriteStage::Finished => result is Ok && final(write)@.stage == WriteStage::Finished,
        },
{
}

} // verus!
