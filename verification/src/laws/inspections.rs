//! Laws of inspections.

use std::path::{Path, PathBuf};

use vstd::prelude::*;

use crate::atomic_write::AtomicWrite;
use crate::clock::Timestamp;
use crate::error::{AppError, ErrorView};
use crate::inspection;
use crate::inspection::{Finding, FindingView, Inspection, InspectionAction, InspectionView};
use crate::laws::likeness;
use crate::models;
use crate::models::{InstallationSnapshot, InstallerState, ReleaseView, SnapshotView, StateView};
use crate::paths;
use crate::storage;
use crate::text;

verus! {

/// What there is to be found in a folder.
pub struct FolderContents {
    pub game_found: bool,
    pub state: Result<Option<StateView>, ErrorView>,
    pub mod_found: bool,
    pub hash: Result<Seq<char>, ErrorView>,
}

impl FolderContents {
    /// What is found when an inspection that has come so far asks for it.
    pub open spec fn answer(self, inspection: InspectionView) -> FindingView {
        match inspection {
            InspectionView::FindGame { .. } => FindingView::File(self.game_found),
            InspectionView::LoadState { .. } => FindingView::State(self.state),
            InspectionView::FindMod { .. } => FindingView::File(self.mod_found),
            InspectionView::HashMod { .. } => FindingView::Hash(self.hash),
            InspectionView::Finished { .. } => FindingView::File(false),
        }
    }

    /// The inspection after it has been told `count` times what it asked for.
    pub open spec fn inspected(self, inspection: InspectionView, count: nat) -> InspectionView
        decreases count,
    {
        if count == 0 {
            inspection
        } else {
            let earlier = self.inspected(inspection, (count - 1) as nat);
            earlier.after(self.answer(earlier))
        }
    }

    /// What an inspection of the folder, whose path is written as `path`, comes to.
    pub open spec fn outcome(self, path: Seq<char>) -> Result<SnapshotView, ErrorView> {
        if text::is_blank(path) {
            Ok(models::missing_snapshot("Choose an installation folder to get started."@))
        } else {
            match self.state {
                Err(error) => Err(error),
                Ok(None) => Ok(inspection::unmanaged_snapshot(self.game_found)),
                Ok(Some(state)) => if !self.mod_found {
                    Ok(inspection::damaged_snapshot(self.game_found, state))
                } else {
                    match self.hash {
                        Err(error) => Err(error),
                        Ok(hash) => Ok(
                            inspection::installed_snapshot(self.game_found, state, hash),
                        ),
                    }
                },
            }
        }
    }
}

/// The inspection after it has been told of all the findings, in their order.
pub open spec fn told(inspection: InspectionView, findings: Seq<FindingView>) -> InspectionView
    decreases findings.len(),
{
    if findings.len() == 0 {
        inspection
    } else {
        told(inspection, findings.drop_last()).after(findings.last())
    }
}

/// What a snapshot says of an installation does not contradict itself: the status follows from the
/// rest, only what is installed has a moment of installation, and only that can have changed.
pub open spec fn is_consistent(snapshot: SnapshotView) -> bool {
    let installed = snapshot.installed_release is Some;
    &&& installed <==> snapshot.installed_at is Some
    &&& !installed ==> snapshot.installed_release_digest is None
    &&& snapshot.local_file_changed ==> installed
    &&& snapshot.status == "notInstalled"@ <==> !installed && !snapshot.game_found
    &&& snapshot.status == "unmanaged"@ <==> !installed && snapshot.game_found
    &&& snapshot.status == "installed"@ <==> installed && !snapshot.local_file_changed
    &&& snapshot.status == "modified"@ || snapshot.status == "needsRepair"@
        <==> snapshot.local_file_changed
}

/// An inspection of any folder is over after at most four findings, and comes to what the folder
/// holds.
pub proof fn an_inspection_comes_to_an_end(path: Seq<char>, contents: FolderContents, count: nat)
    requires
        count >= 4,
    ensures
        contents.inspected(inspection::inspection_start(path), count) == (
        InspectionView::Finished { outcome: contents.outcome(path) }),
    decreases count,
{
    let start = inspection::inspection_start(path);
    if count == 4 {
        reveal_with_fuel(FolderContents::inspected, 5);
    } else {
        an_inspection_comes_to_an_end(path, contents, (count - 1) as nat);
    }
}

/// An inspection that is over stays as it is, whatever it is told.
pub proof fn a_finished_inspection_stays(
    outcome: Result<SnapshotView, ErrorView>,
    finding: FindingView,
)
    ensures
        (InspectionView::Finished { outcome }).after(finding) == (InspectionView::Finished {
            outcome,
        }),
{
}

proof fn lemma_snapshots_are_consistent()
    ensures
        forall|message: Seq<char>| is_consistent(#[trigger] models::missing_snapshot(message)),
        forall|game_found: bool|
            is_consistent(#[trigger] inspection::unmanaged_snapshot(game_found)),
        forall|game_found: bool, state: StateView|
            is_consistent(#[trigger] inspection::damaged_snapshot(game_found, state)),
        forall|game_found: bool, state: StateView, hash: Seq<char>|
            is_consistent(#[trigger] inspection::installed_snapshot(game_found, state, hash)),
{
    reveal_strlit("notInstalled");
    reveal_strlit("unmanaged");
    reveal_strlit("installed");
    reveal_strlit("modified");
    reveal_strlit("needsRepair");
    assert("notInstalled"@.len() == 12);
    assert("needsRepair"@.len() == 11);
    assert("modified"@.len() == 8);
    assert("unmanaged"@[0] == 'u');
    assert("installed"@[0] == 'i');
}

/// Whatever an inspection is told, each snapshot that it comes to is consistent.
pub proof fn every_snapshot_is_consistent(
    path: Seq<char>,
    findings: Seq<FindingView>,
    snapshot: SnapshotView,
)
    requires
        told(inspection::inspection_start(path), findings) == (InspectionView::Finished {
            outcome: Ok(snapshot),
        }),
    ensures
        is_consistent(snapshot),
    decreases findings.len(),
{
    lemma_snapshots_are_consistent();
    if findings.len() > 0 {
        let earlier = told(inspection::inspection_start(path), findings.drop_last());
        if earlier == (InspectionView::Finished { outcome: Ok(snapshot) }) {
            every_snapshot_is_consistent(path, findings.drop_last(), snapshot);
        }
    }
}

/// A folder is found to hold no installation exactly if it has neither the game nor an installation
/// state in it, which is what makes a folder an existing installation directory.
pub proof fn only_an_empty_folder_is_not_installed(
    path: Seq<char>,
    contents: FolderContents,
    snapshot: SnapshotView,
)
    requires
        !text::is_blank(path),
        contents.outcome(path) == Ok::<SnapshotView, ErrorView>(snapshot),
    ensures
        snapshot.status == "notInstalled"@ <==> !(contents.game_found || contents.state is Ok
            && contents.state->Ok_0 is Some),
{
    lemma_snapshots_are_consistent();
}

/// White space around a path does not matter.
pub proof fn space_around_a_path_does_not_matter(
    before: Seq<char>,
    path: Seq<char>,
    behind: Seq<char>,
)
    requires
        text::is_blank(before),
        text::is_blank(behind),
    ensures
        inspection::inspection_start(before + path + behind) == inspection::inspection_start(path),
{
    text::space_around_is_trimmed(before, path, behind);
    text::blank_text_trims_to_nothing(path);
    text::blank_text_trims_to_nothing(before + path + behind);
}

/// The release that was recorded as installed is no update of the installation, whatever has become
/// of its DLL.
pub proof fn the_recorded_release_is_never_an_update(
    path: Seq<char>,
    contents: FolderContents,
    release: ReleaseView,
    hash: Seq<char>,
    installed_at: Timestamp,
    snapshot: SnapshotView,
)
    requires
        !text::is_blank(path),
        contents.state == Ok::<Option<StateView>, ErrorView>(
            Some(
                storage::state_of_install(
                    release.tag,
                    release.asset_name,
                    release.digest,
                    hash,
                    installed_at,
                ),
            ),
        ),
        contents.outcome(path) == Ok::<SnapshotView, ErrorView>(snapshot),
    ensures
        snapshot.installed_release == Some(release.tag),
        snapshot.installed_release_digest == release.digest,
        snapshot.installed_at == Some(installed_at),
        !models::is_update(snapshot, release),
{
}

/// An installation that was recorded, and whose DLL still has the recorded digest, is found to be
/// installed and unchanged, and the release that was recorded is no update of it.
pub proof fn a_recorded_installation_is_found_again(
    path: Seq<char>,
    contents: FolderContents,
    release: ReleaseView,
    hash: Seq<char>,
    present_hash: Seq<char>,
    installed_at: Timestamp,
)
    requires
        !text::is_blank(path),
        contents.state == Ok::<Option<StateView>, ErrorView>(
            Some(
                storage::state_of_install(
                    release.tag,
                    release.asset_name,
                    release.digest,
                    hash,
                    installed_at,
                ),
            ),
        ),
        contents.mod_found,
        contents.hash == Ok::<Seq<char>, ErrorView>(present_hash),
        text::same_ignoring_case(hash, present_hash),
    ensures
        contents.outcome(path) matches Ok(snapshot) && {
            &&& snapshot.status == "installed"@
            &&& !snapshot.local_file_changed
            &&& snapshot.game_found == contents.game_found
            &&& snapshot.installed_release == Some(release.tag)
            &&& snapshot.installed_release_digest == release.digest
            &&& snapshot.installed_at == Some(installed_at)
            &&& !models::is_update(snapshot, release)
        },
{
}

/// `path` is `kept` with nothing but white space around it, and `kept` begins and ends with something
/// else.
pub open spec fn is_written_as(
    path: Seq<char>,
    before: Seq<char>,
    kept: Seq<char>,
    behind: Seq<char>,
) -> bool {
    &&& path == before + kept + behind
    &&& text::is_blank(before)
    &&& text::is_blank(behind)
    &&& kept.len() > 0
    &&& !text::is_white_space(kept[0])
    &&& !text::is_white_space(kept[kept.len() - 1])
}

proof fn lemma_written_text_is_kept(
    path: Seq<char>,
    before: Seq<char>,
    kept: Seq<char>,
    behind: Seq<char>,
)
    requires
        is_written_as(path, before, kept, behind),
    ensures
        !text::is_blank(path),
        text::trimmed(path) == kept,
{
    text::space_around_is_trimmed(before, kept, behind);
    assert(path[before.len() as int] == kept[0]);
}

/// The folder that is looked in is the one whose path was written, to the letter: only white space
/// around the path is left out.
pub proof fn an_inspection_looks_in_the_written_folder(
    path: &str,
    before: Seq<char>,
    kept: Seq<char>,
    behind: Seq<char>,
    inspection: Inspection,
)
    requires
        is_written_as(path@, before, kept, behind),
        call_ensures(inspection::inspect_installation, (path,), inspection),
    ensures
        inspection matches Inspection::FindGame { root } && paths::path_buf_bytes(root)
            == vstd::utf8::encode_utf8(kept),
{
    lemma_written_text_is_kept(path@, before, kept, behind);
}

/// Where nothing but white space was written, there is no folder to look in, and the user is asked
/// for one.
pub proof fn a_blank_path_is_not_inspected(path: &str, inspection: Inspection)
    requires
        text::is_blank(path@),
        call_ensures(inspection::inspect_installation, (path,), inspection),
    ensures
        inspection matches Inspection::Finished { outcome: Ok(snapshot) } && {
            &&& snapshot.status@ == "notInstalled"@
            &&& snapshot.message@ == "Choose an installation folder to get started."@
            &&& !snapshot.game_found
            &&& snapshot.installed_release is None
            &&& snapshot.installed_release_digest is None
            &&& snapshot.installed_at is None
            &&& !snapshot.local_file_changed
        },
{
}

/// What an inspection asks for lies in its folder: the game's executable, the installation state and
/// the Sunrise DLL, each at its own place.
pub proof fn an_inspection_asks_for_three_files(inspection: Inspection, action: InspectionAction)
    requires
        call_ensures(Inspection::action, (&inspection,), action),
    ensures
        match inspection {
            Inspection::FindGame { root } => {
                &&& action matches InspectionAction::CheckFile(path)
                &&& paths::path_buf_bytes(path) == paths::joined(
                    paths::path_buf_bytes(root),
                    "destiny2.exe"@,
                )
            },
            Inspection::LoadState { root, .. } => {
                &&& action matches InspectionAction::LoadState(path)
                &&& paths::path_buf_bytes(path) == paths::joined(
                    paths::joined(paths::path_buf_bytes(root), ".sunrise"@),
                    "install-state.json"@,
                )
            },
            Inspection::FindMod { root, .. } => {
                &&& action matches InspectionAction::CheckFile(path)
                &&& paths::path_buf_bytes(path) == paths::joined(
                    paths::joined(paths::joined(paths::path_buf_bytes(root), "bin"@), "x64"@),
                    "steam_api64.dll"@,
                )
            },
            Inspection::HashMod { root, .. } => {
                &&& action matches InspectionAction::HashFile(path)
                &&& paths::path_buf_bytes(path) == paths::joined(
                    paths::joined(paths::joined(paths::path_buf_bytes(root), "bin"@), "x64"@),
                    "steam_api64.dll"@,
                )
            },
            Inspection::Finished { .. } => action is Nothing,
        },
{
}

/// The inspection is over, or it looks in the folder with the path `root`.
pub open spec fn looks_in(inspection: InspectionView, root: Seq<u8>) -> bool {
    match inspection {
        InspectionView::FindGame { root: folder } => folder == root,
        InspectionView::LoadState { root: folder, .. } => folder == root,
        InspectionView::FindMod { root: folder, .. } => folder == root,
        InspectionView::HashMod { root: folder, .. } => folder == root,
        InspectionView::Finished { .. } => true,
    }
}

proof fn lemma_the_folder_stays(
    start: InspectionView,
    findings: Seq<FindingView>,
    root: Seq<u8>,
)
    requires
        looks_in(start, root),
    ensures
        looks_in(told(start, findings), root),
    decreases findings.len(),
{
    if findings.len() > 0 {
        lemma_the_folder_stays(start, findings.drop_last(), root);
    }
}

/// Whatever an inspection has been told, each file that it asks for lies in the folder whose path was
/// written, at the place of the game's executable, of the installation state or of the Sunrise DLL.
pub proof fn every_step_looks_in_the_written_folder(
    path: &str,
    before: Seq<char>,
    kept: Seq<char>,
    behind: Seq<char>,
    start: Inspection,
    findings: Seq<FindingView>,
    now: Inspection,
    action: InspectionAction,
)
    requires
        is_written_as(path@, before, kept, behind),
        call_ensures(inspection::inspect_installation, (path,), start),
        now@ == told(start@, findings),
        call_ensures(Inspection::action, (&now,), action),
    ensures
        ({
            let root = vstd::utf8::encode_utf8(kept);
            let game = paths::joined(root, "destiny2.exe"@);
            let state = paths::joined(paths::joined(root, ".sunrise"@), "install-state.json"@);
            let dll = paths::joined(
                paths::joined(paths::joined(root, "bin"@), "x64"@),
                "steam_api64.dll"@,
            );
            match action {
                InspectionAction::CheckFile(file) => if now is FindGame {
                    paths::path_buf_bytes(file) == game
                } else {
                    now is FindMod && paths::path_buf_bytes(file) == dll
                },
                InspectionAction::LoadState(file) => now is LoadState && paths::path_buf_bytes(file)
                    == state,
                InspectionAction::HashFile(file) => now is HashMod && paths::path_buf_bytes(file)
                    == dll,
                InspectionAction::Nothing => now is Finished,
            }
        }),
{
    lemma_written_text_is_kept(path@, before, kept, behind);
    lemma_the_folder_stays(start@, findings, vstd::utf8::encode_utf8(kept));
}

/// An inspection looks for the installation state at the very place where a state that was saved for
/// the written folder lies.
pub proof fn a_state_is_looked_for_where_it_is_saved(
    path: &str,
    before: Seq<char>,
    kept: Seq<char>,
    behind: Seq<char>,
    start: Inspection,
    findings: Seq<FindingView>,
    now: Inspection,
    action: InspectionAction,
    install_root: &Path,
    encoded: Result<Vec<u8>, String>,
    process: u32,
    begun: Result<AtomicWrite, AppError>,
)
    requires
        is_written_as(path@, before, kept, behind),
        call_ensures(inspection::inspect_installation, (path,), start),
        now@ == told(start@, findings),
        call_ensures(Inspection::action, (&now,), action),
        paths::path_bytes(install_root) == vstd::utf8::encode_utf8(kept),
        call_ensures(storage::save_state, (install_root, encoded, process), begun),
    ensures
        action matches InspectionAction::LoadState(file) ==> (begun matches Ok(write)
            ==> paths::path_buf_bytes(file) == write@.target),
{
    every_step_looks_in_the_written_folder(
        path,
        before,
        kept,
        behind,
        start,
        findings,
        now,
        action,
    );
}

/// The snapshot shows the release, the digest and the moment that the state records.
pub open spec fn shows_state(snapshot: InstallationSnapshot, state: InstallerState) -> bool {
    &&& snapshot.installed_release matches Some(tag)
    &&& tag@ == state.release_tag@
    &&& likeness::same_optional_text(
        snapshot.installed_release_digest,
        state.release_asset_digest,
    )
    &&& snapshot.installed_at matches Some(moment)
    &&& moment.seconds == state.installed_at_utc.seconds
    &&& moment.nanoseconds == state.installed_at_utc.nanoseconds
}

/// The snapshot shows no installation.
pub open spec fn shows_no_state(snapshot: InstallationSnapshot) -> bool {
    &&& snapshot.installed_release is None
    &&& snapshot.installed_release_digest is None
    &&& snapshot.installed_at is None
    &&& !snapshot.local_file_changed
}

/// The presence of the game decides nothing but what the user is told of it: after it has been looked
/// for, the state is loaded in the same folder.
pub proof fn after_the_game_comes_the_state(
    root: PathBuf,
    found: bool,
    next: Inspection,
)
    requires
        call_ensures(
            Inspection::advance,
            ((Inspection::FindGame { root }), Finding::File(found)),
            next,
        ),
    ensures
        next matches Inspection::LoadState { root: folder, game_found } && game_found == found
            && paths::path_buf_bytes(folder) == paths::path_buf_bytes(root),
{
}

/// Without an installation state, the folder is unmanaged if the game is in it and holds nothing if
/// not. With one, the DLL is looked for in the same folder, and the state is kept as it was loaded. A
/// state that could not be loaded is reported as it is.
pub proof fn the_state_decides_whether_there_is_an_installation(
    root: PathBuf,
    found: bool,
    loaded: Result<Option<InstallerState>, AppError>,
    next: Inspection,
)
    requires
        call_ensures(
            Inspection::advance,
            ((Inspection::LoadState { root, game_found: found }), Finding::State(loaded)),
            next,
        ),
    ensures
        match loaded {
            Ok(Some(state)) => {
                &&& next matches Inspection::FindMod { root: folder, game_found, state: kept }
                &&& paths::path_buf_bytes(folder) == paths::path_buf_bytes(root)
                &&& game_found == found
                &&& likeness::same_state(kept, state)
            },
            Ok(None) => {
                &&& next matches Inspection::Finished { outcome: Ok(snapshot) }
                &&& shows_no_state(snapshot)
                &&& snapshot.game_found == found
                &&& if found {
                    &&& snapshot.status@ == "unmanaged"@
                    &&& snapshot.message@
                        == "Destiny 2 was found, but this launcher has not installed Sunrise here."@
                } else {
                    &&& snapshot.status@ == "notInstalled"@
                    &&& snapshot.message@
                        == "No managed Sunrise installation was found in this folder."@
                }
            },
            Err(error) => {
                &&& next matches Inspection::Finished { outcome: Err(reported) }
                &&& likeness::same_error(reported, error)
            },
        },
{
}

/// An installation without its DLL needs repair. With it, its digest is taken next.
pub proof fn a_missing_dll_needs_repair(
    root: PathBuf,
    found: bool,
    state: InstallerState,
    dll_found: bool,
    next: Inspection,
)
    requires
        call_ensures(
            Inspection::advance,
            ((Inspection::FindMod { root, game_found: found, state }), Finding::File(dll_found)),
            next,
        ),
    ensures
        if dll_found {
            &&& next matches Inspection::HashMod { root: folder, game_found, state: kept }
            &&& paths::path_buf_bytes(folder) == paths::path_buf_bytes(root)
            &&& game_found == found
            &&& likeness::same_state(kept, state)
        } else {
            &&& next matches Inspection::Finished { outcome: Ok(snapshot) }
            &&& snapshot.status@ == "needsRepair"@
            &&& snapshot.message@ == "The Sunrise DLL is missing. Run Repair."@
            &&& snapshot.game_found == found
            &&& shows_state(snapshot, state)
            &&& snapshot.local_file_changed
        },
{
}

/// An installation is as it was made exactly if its DLL has the recorded digest, whose case does not
/// count, and otherwise it is modified. A digest that could not be taken is reported as it is.
pub proof fn the_digest_decides_whether_an_installation_changed(
    root: PathBuf,
    found: bool,
    state: InstallerState,
    taken: Result<String, AppError>,
    next: Inspection,
)
    requires
        call_ensures(
            Inspection::advance,
            ((Inspection::HashMod { root, game_found: found, state }), Finding::Hash(taken)),
            next,
        ),
    ensures
        match taken {
            Ok(hash) => {
                &&& next matches Inspection::Finished { outcome: Ok(snapshot) }
                &&& snapshot.game_found == found
                &&& shows_state(snapshot, state)
                &&& if text::same_ignoring_case(state.installed_dll_sha256@, hash@) {
                    &&& snapshot.status@ == "installed"@
                    &&& snapshot.message@ == "Sunrise is installed and ready."@
                    &&& !snapshot.local_file_changed
                } else {
                    &&& snapshot.status@ == "modified"@
                    &&& snapshot.message@
                        == "The installed DLL differs from the recorded release. Run Repair or Update."@
                    &&& snapshot.local_file_changed
                }
            },
            Err(error) => {
                &&& next matches Inspection::Finished { outcome: Err(reported) }
                &&& likeness::same_error(reported, error)
            },
        },
{
}

/// What an inspection has not asked for leaves it as it is, and so does everything once it is over.
pub proof fn what_was_not_asked_for_changes_nothing(
    inspection: Inspection,
    finding: Finding,
    next: Inspection,
)
    requires
        call_ensures(Inspection::advance, (inspection, finding), next),
        match inspection {
            Inspection::FindGame { .. } => !(finding is File),
            Inspection::LoadState { .. } => !(finding is State),
            Inspection::FindMod { .. } => !(finding is File),
            Inspection::HashMod { .. } => !(finding is Hash),
            Inspection::Finished { .. } => true,
        },
    ensures
        likeness::same_inspection(next, inspection),
{
}

/// A folder in which nothing was found has this one status, and is shown with the given message.
pub proof fn nothing_found_is_not_installed(message: &str, snapshot: InstallationSnapshot)
    requires
        call_ensures(InstallationSnapshot::missing, (message,), snapshot),
    ensures
        snapshot.status@ == "notInstalled"@,
        snapshot.message@ == message@,
        !snapshot.game_found,
        shows_no_state(snapshot),
{
}

} // verus!
