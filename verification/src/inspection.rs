//! What an installation folder holds.
//!
//! An inspection looks at the folder step by step. The caller does the looking: an `Inspection`
//! says what to look at next and is told what was found.

use std::path::PathBuf;

use vstd::prelude::*;

use crate::error;
use crate::error::{AppError, ErrorView};
use crate::models;
use crate::models::{InstallationSnapshot, InstallerState, SnapshotView, StateView};
use crate::paths;
use crate::text;

verus! {

/// How far an inspection has come.
pub enum Inspection {
    /// It is to be seen whether the game is there.
    FindGame { root: PathBuf },
    /// The installation state is to be loaded.
    LoadState { root: PathBuf, game_found: bool },
    /// It is to be seen whether the Sunrise DLL is there.
    FindMod { root: PathBuf, game_found: bool, state: InstallerState },
    /// The digest of the Sunrise DLL is to be taken.
    HashMod { root: PathBuf, game_found: bool, state: InstallerState },
    /// The inspection is over.
    Finished { outcome: Result<InstallationSnapshot, AppError> },
}

/// Something for the caller to find out.
pub enum InspectionAction {
    /// Whether there is a file at the path.
    CheckFile(PathBuf),
    /// The installation state in the file at the path, if there is such a file.
    LoadState(PathBuf),
    /// The digest of the file at the path, in hexadecimal notation.
    HashFile(PathBuf),
    /// Nothing more.
    Nothing,
}

/// What the caller found out.
pub enum Finding {
    /// Whether there is a file.
    File(bool),
    /// The installation state, if there is one, or why it could not be loaded.
    State(Result<Option<InstallerState>, AppError>),
    /// The digest of a file, or why it could not be taken.
    Hash(Result<String, AppError>),
}

/// The paths, states and texts of an `Inspection`.
pub enum InspectionView {
    FindGame { root: Seq<u8> },
    LoadState { root: Seq<u8>, game_found: bool },
    FindMod { root: Seq<u8>, game_found: bool, state: StateView },
    HashMod { root: Seq<u8>, game_found: bool, state: StateView },
    Finished { outcome: Result<SnapshotView, ErrorView> },
}

impl View for Inspection {
    type V = InspectionView;

    open spec fn view(&self) -> InspectionView {
        match *self {
            Inspection::FindGame { root } => InspectionView::FindGame {
                root: paths::path_buf_bytes(root),
            },
            Inspection::LoadState { root, game_found } => InspectionView::LoadState {
                root: paths::path_buf_bytes(root),
                game_found,
            },
            Inspection::FindMod { root, game_found, state } => InspectionView::FindMod {
                root: paths::path_buf_bytes(root),
                game_found,
                state: state@,
            },
            Inspection::HashMod { root, game_found, state } => InspectionView::HashMod {
                root: paths::path_buf_bytes(root),
                game_found,
                state: state@,
            },
            Inspection::Finished { outcome } => InspectionView::Finished {
                outcome: error::viewed(outcome),
            },
        }
    }
}

/// The states and texts of a `Finding`.
pub enum FindingView {
    File(bool),
    State(Result<Option<StateView>, ErrorView>),
    Hash(Result<Seq<char>, ErrorView>),
}

impl View for Finding {
    type V = FindingView;

    open spec fn view(&self) -> FindingView {
        match *self {
            Finding::File(found) => FindingView::File(found),
            Finding::State(state) => FindingView::State(error::viewed_option(state)),
            Finding::Hash(hash) => FindingView::Hash(error::viewed(hash)),
        }
    }
}

/// The snapshot of a folder that the launcher has installed nothing in.
pub open spec fn unmanaged_snapshot(game_found: bool) -> SnapshotView {
    SnapshotView {
        status: if game_found {
            "unmanaged"@
        } else {
            "notInstalled"@
        },
        message: if game_found {
            "Destiny 2 was found, but this launcher has not installed Sunrise here."@
        } else {
            "No managed Sunrise installation was found in this folder."@
        },
        game_found,
        installed_release: None,
        installed_release_digest: None,
        installed_at: None,
        local_file_changed: false,
    }
}

/// The snapshot of an installation that has lost its Sunrise DLL.
pub open spec fn damaged_snapshot(game_found: bool, state: StateView) -> SnapshotView {
    SnapshotView {
        status: "needsRepair"@,
        message: "The Sunrise DLL is missing. Run Repair."@,
        game_found,
        installed_release: Some(state.release_tag),
        installed_release_digest: state.release_asset_digest,
        installed_at: Some(state.installed_at_utc),
        local_file_changed: true,
    }
}

/// The snapshot of an installation whose Sunrise DLL has the digest `hash`.
pub open spec fn installed_snapshot(
    game_found: bool,
    state: StateView,
    hash: Seq<char>,
) -> SnapshotView {
    let changed = !text::same_ignoring_case(state.installed_dll_sha256, hash);
    SnapshotView {
        status: if changed {
            "modified"@
        } else {
            "installed"@
        },
        message: if changed {
            "The installed DLL differs from the recorded release. Run Repair or Update."@
        } else {
            "Sunrise is installed and ready."@
        },
        game_found,
        installed_release: Some(state.release_tag),
        installed_release_digest: state.release_asset_digest,
        installed_at: Some(state.installed_at_utc),
        local_file_changed: changed,
    }
}

/// The inspection of the folder whose path the user has written as `path`, before its first step.
/// White space around the path does not count, and where nothing else is written there is no folder
/// to inspect.
pub open spec fn inspection_start(path: Seq<char>) -> InspectionView {
    if text::is_blank(path) {
        InspectionView::Finished {
            outcome: Ok(
                models::missing_snapshot("Choose an installation folder to get started."@),
            ),
        }
    } else {
        InspectionView::FindGame { root: vstd::utf8::encode_utf8(text::trimmed(path)) }
    }
}

impl InspectionView {
    /// The inspection once it has been told of `finding`. What it has not asked for leaves it where
    /// it is.
    pub open spec fn after(self, finding: FindingView) -> InspectionView {
        match (self, finding) {
            (
                InspectionView::FindGame { root },
                FindingView::File(game_found),
            ) => InspectionView::LoadState { root, game_found },
            (
                InspectionView::LoadState { root, game_found },
                FindingView::State(Ok(Some(state))),
            ) => InspectionView::FindMod { root, game_found, state },
            (
                InspectionView::LoadState { root, game_found },
                FindingView::State(Ok(None)),
            ) => InspectionView::Finished { outcome: Ok(unmanaged_snapshot(game_found)) },
            (
                InspectionView::LoadState { root, game_found },
                FindingView::State(Err(error)),
            ) => InspectionView::Finished { outcome: Err(error) },
            (
                InspectionView::FindMod { root, game_found, state },
                FindingView::File(true),
            ) => InspectionView::HashMod { root, game_found, state },
            (
                InspectionView::FindMod { root, game_found, state },
                FindingView::File(false),
            ) => InspectionView::Finished { outcome: Ok(damaged_snapshot(game_found, state)) },
            (
                InspectionView::HashMod { root, game_found, state },
                FindingView::Hash(Ok(hash)),
            ) => InspectionView::Finished {
                outcome: Ok(installed_snapshot(game_found, state, hash)),
            },
            (
                InspectionView::HashMod { root, game_found, state },
                FindingView::Hash(Err(error)),
            ) => InspectionView::Finished { outcome: Err(error) },
            _ => self,
        }
    }
}

/// The snapshot of a folder that the launcher has installed nothing in.
fn unmanaged(game_found: bool) -> (snapshot: InstallationSnapshot)
    ensures
        snapshot@ == unmanaged_snapshot(game_found),
{
    InstallationSnapshot {
        status: (if game_found {
            "unmanaged"
        } else {
            "notInstalled"
        }).to_owned(),
        message: (if game_found {
            "Destiny 2 was found, but this launcher has not installed Sunrise here."
        } else {
            "No managed Sunrise installation was found in this folder."
        }).to_owned(),
        game_found,
        installed_release: None,
        installed_release_digest: None,
        installed_at: None,
        local_file_changed: false,
    }
}

/// The snapshot of an installation that has lost its Sunrise DLL.
fn damaged(game_found: bool, state: InstallerState) -> (snapshot: InstallationSnapshot)
    ensures
        snapshot@ == damaged_snapshot(game_found, state@),
{
    InstallationSnapshot {
        status: "needsRepair".to_owned(),
        message: "The Sunrise DLL is missing. Run Repair.".to_owned(),
        game_found,
        installed_release: Some(state.release_tag),
        installed_release_digest: state.release_asset_digest,
        installed_at: Some(state.installed_at_utc),
        local_file_changed: true,
    }
}

/// The snapshot of an installation whose Sunrise DLL has the digest `hash`.
fn installed(game_found: bool, state: InstallerState, hash: &str) -> (snapshot:
    InstallationSnapshot)
    ensures
        snapshot@ == installed_snapshot(game_found, state@, hash@),
{
    let changed = !state.installed_dll_sha256.as_str().eq_ignore_ascii_case(hash);
    InstallationSnapshot {
        status: (if changed {
            "modified"
        } else {
            "installed"
        }).to_owned(),
        message: (if changed {
            "The installed DLL differs from the recorded release. Run Repair or Update."
        } else {
            "Sunrise is installed and ready."
        }).to_owned(),
        game_found,
        installed_release: Some(state.release_tag),
        installed_release_digest: state.release_asset_digest,
        installed_at: Some(state.installed_at_utc),
        local_file_changed: changed,
    }
}

/// Begins to inspect the folder whose path the user has written as `path`.
pub fn inspect_installation(path: &str) -> (inspection: Inspection)
    ensures
        inspection@ == inspection_start(path@),
{
    proof {
        text::blank_text_trims_to_nothing(path@);
    }
    let path = path.trim();
    if path.is_empty() {
        Inspection::Finished {
            outcome: Ok(
                InstallationSnapshot::missing("Choose an installation folder to get started."),
            ),
        }
    } else {
        Inspection::FindGame { root: paths::path_from(path) }
    }
}

impl Inspection {
    /// What is to be found out next.
    pub fn action(&self) -> (action: InspectionAction)
        ensures
            match self@ {
                InspectionView::FindGame { root } => action matches InspectionAction::CheckFile(
                    path,
                ) && paths::path_buf_bytes(path) == paths::game_location(root),
                InspectionView::LoadState { root, .. } => action matches InspectionAction::LoadState(
                    path,
                ) && paths::path_buf_bytes(path) == paths::state_location(root),
                InspectionView::FindMod { root, .. } => action matches InspectionAction::CheckFile(
                    path,
                ) && paths::path_buf_bytes(path) == paths::mod_location(root),
                InspectionView::HashMod { root, .. } => action matches InspectionAction::HashFile(
                    path,
                ) && paths::path_buf_bytes(path) == paths::mod_location(root),
                InspectionView::Finished { .. } => action is Nothing,
            },
    {
        match self {
            Inspection::FindGame { root } => InspectionAction::CheckFile(
                paths::game_path(paths::as_path(root)),
            ),
            Inspection::LoadState { root, .. } => InspectionAction::LoadState(
                paths::state_path(paths::as_path(root)),
            ),
            Inspection::FindMod { root, .. } => InspectionAction::CheckFile(
                paths::mod_path(paths::as_path(root)),
            ),
            Inspection::HashMod { root, .. } => InspectionAction::HashFile(
                paths::mod_path(paths::as_path(root)),
            ),
            Inspection::Finished { .. } => InspectionAction::Nothing,
        }
    }

    /// Takes note of what was found out. What was not asked for changes nothing.
    pub fn advance(self, finding: Finding) -> (next: Inspection)
        ensures
            next@ == self@.after(finding@),
    {
        match (self, finding) {
            (Inspection::FindGame { root }, Finding::File(game_found)) => Inspection::LoadState {
                root,
                game_found,
            },
            (
                Inspection::LoadState { root, game_found },
                Finding::State(Ok(Some(state))),
            ) => Inspection::FindMod { root, game_found, state },
            (
                Inspection::LoadState { root, game_found },
                Finding::State(Ok(None)),
            ) => Inspection::Finished { outcome: Ok(unmanaged(game_found)) },
            (
                Inspection::LoadState { root, game_found },
                Finding::State(Err(error)),
            ) => Inspection::Finished { outcome: Err(error) },
            (Inspection::FindMod { root, game_found, state }, Finding::File(found)) => if found {
                Inspection::HashMod { root, game_found, state }
            } else {
                Inspection::Finished { outcome: Ok(damaged(game_found, state)) }
            },
            (
                Inspection::HashMod { root, game_found, state },
                Finding::Hash(Ok(hash)),
            ) => Inspection::Finished { outcome: Ok(installed(game_found, state, hash.as_str())) },
            (
                Inspection::HashMod { root, game_found, state },
                Finding::Hash(Err(error)),
            ) => Inspection::Finished { outcome: Err(error) },
            (unchanged, _) => unchanged,
        }
    }
}

} // verus!
