//! What the launcher keeps on disk, and what it makes of what it finds there.
//!
//! The functions here take what a file operation gave and decide what follows from it.

use std::collections::BTreeMap;
use std::path::{Path, PathBuf};

use vstd::prelude::*;
use vstd::string::StringExecFns;

use crate::atomic_write;
use crate::atomic_write::{AtomicWrite, WriteView};
use crate::clock;
use crate::clock::Timestamp;
use crate::error;
use crate::error::{AppError, ErrorView};
use crate::models;
use crate::models::{InstallerState, Preferences, PreferencesView, StateView, DEPOTS, STEAM_APP_ID};
use crate::paths;
use crate::text;

verus! {

/// What the reading of a data file gave.
pub enum StoredFile<T> {
    /// There is no such file.
    Absent,
    /// The file could not be read, for the reason that the system gave.
    Unreadable(String),
    /// The file was read, and what it holds is not what such a file should hold, for the given
    /// reason.
    Malformed(String),
    /// The value that the file holds.
    Parsed(T),
}

/// The folder for the launcher's data, if the system has one, and otherwise why it has not.
pub fn app_data_dir(resolved: Result<PathBuf, String>) -> (folder: Result<PathBuf, AppError>)
    ensures
        match (resolved, folder) {
            (Ok(path), Ok(folder)) => folder == path,
            (Err(reason), Err(error)) => error@ == ErrorView::Message(
                "The application data folder is unavailable: "@ + reason@,
            ),
            _ => false,
        },
{
    match resolved {
        Ok(path) => Ok(path),
        Err(reason) => {
            let mut message = "The application data folder is unavailable: ".to_owned();
            message.append(reason.as_str());
            Err(AppError::Message(message))
        },
    }
}

/// The folder for what the launcher can fetch again, if the system has one, and otherwise why it has
/// not.
pub fn app_cache_dir(resolved: Result<PathBuf, String>) -> (folder: Result<PathBuf, AppError>)
    ensures
        match (resolved, folder) {
            (Ok(path), Ok(folder)) => folder == path,
            (Err(reason), Err(error)) => error@ == ErrorView::Message(
                "The application cache folder is unavailable: "@ + reason@,
            ),
            _ => false,
        },
{
    match resolved {
        Ok(path) => Ok(path),
        Err(reason) => {
            let mut message = "The application cache folder is unavailable: ".to_owned();
            message.append(reason.as_str());
            Err(AppError::Message(message))
        },
    }
}

/// The text of the folder that the program at `executable` lies in.
pub open spec fn folder_text(executable: Seq<u8>) -> Result<Seq<char>, ErrorView> {
    match paths::parent_of(executable) {
        Some(folder) => Ok(paths::lossy_text_of(folder)),
        None => Err(ErrorView::Message("The launcher executable has no parent folder."@)),
    }
}

/// The folder that the launcher proposes to install into: the one that the launcher itself lies in.
/// `executable` is where the launcher lies, or why that could not be found out.
pub fn default_install_directory(executable: Result<PathBuf, String>) -> (directory: Result<
    String,
    AppError,
>)
    ensures
        error::viewed(directory) == match executable {
            Ok(path) => folder_text(paths::path_buf_bytes(path)),
            Err(reason) => Err(
                ErrorView::Io {
                    context: "Could not locate the launcher executable"@,
                    reason: reason@,
                },
            ),
        },
        match (executable, directory) {
            (Ok(path), Ok(directory)) => forall|folder: Seq<char>|
                paths::parent_of(paths::path_buf_bytes(path)) == Some(
                    #[trigger] vstd::utf8::encode_utf8(folder),
                ) ==> directory@ == folder,
            _ => true,
        },
{
    let path = match executable {
        Ok(path) => path,
        Err(reason) => {
            return Err(AppError::io("Could not locate the launcher executable", reason));
        },
    };
    match paths::parent(paths::as_path(&path)) {
        Some(folder) => Ok(paths::to_string_lossy(folder)),
        None => Err(AppError::message("The launcher executable has no parent folder.")),
    }
}

/// Tells whether a folder holds an installation already: the game's executable, or an installation
/// state, was found in it.
pub fn is_existing_installation_directory(game_found: bool, state_found: bool) -> (existing: bool)
    ensures
        existing == (game_found || state_found),
{
    game_found || state_found
}

/// The preferences to go by: those of the file, or the default ones where there is no file or where
/// it makes no sense.
pub open spec fn effective_preferences(file: StoredFile<Preferences>) -> Result<
    PreferencesView,
    ErrorView,
> {
    match file {
        StoredFile::Absent | StoredFile::Malformed(_) => Ok(models::default_preferences()),
        StoredFile::Parsed(preferences) => Ok(preferences@),
        StoredFile::Unreadable(reason) => Err(
            ErrorView::Io { context: "Could not read preferences"@, reason: reason@ },
        ),
    }
}

/// Settles the preferences from what the reading of the preferences file gave.
pub fn load_preferences(file: StoredFile<Preferences>) -> (preferences: Result<
    Preferences,
    AppError,
>)
    ensures
        error::viewed(preferences) == effective_preferences(file),
{
    match file {
        StoredFile::Absent => Ok(Preferences::default()),
        StoredFile::Unreadable(reason) => Err(AppError::io("Could not read preferences", reason)),
        StoredFile::Malformed(_) => Ok(Preferences::default()),
        StoredFile::Parsed(preferences) => Ok(preferences),
    }
}

/// The recorded installation: what the file holds, nothing where there is no file, and an error
/// where the file cannot be read or makes no sense.
pub open spec fn recorded_state(file: StoredFile<InstallerState>) -> Result<
    Option<StateView>,
    ErrorView,
> {
    match file {
        StoredFile::Absent => Ok(None),
        StoredFile::Parsed(state) => Ok(Some(state@)),
        StoredFile::Malformed(reason) => Err(ErrorView::Json { reason: reason@ }),
        StoredFile::Unreadable(reason) => Err(
            ErrorView::Io { context: "Could not read the installation state"@, reason: reason@ },
        ),
    }
}

/// Settles the recorded installation from what the reading of the installation state gave.
pub fn load_state(file: StoredFile<InstallerState>) -> (state: Result<
    Option<InstallerState>,
    AppError,
>)
    ensures
        error::viewed_option(state) == recorded_state(file),
{
    match file {
        StoredFile::Absent => Ok(None),
        StoredFile::Unreadable(reason) => Err(
            AppError::io("Could not read the installation state", reason),
        ),
        StoredFile::Malformed(reason) => Err(AppError::json(reason)),
        StoredFile::Parsed(state) => Ok(Some(state)),
    }
}

/// What the saving of `encoded` at `location` begins with.
pub open spec fn save_start(
    location: Seq<u8>,
    encoded: Result<Vec<u8>, String>,
    process: u32,
) -> Result<WriteView, ErrorView> {
    match encoded {
        Ok(contents) => atomic_write::write_start(location, contents@, process),
        Err(reason) => Err(ErrorView::Json { reason: reason@ }),
    }
}

/// Begins to save the preferences in the folder `data_dir`. `created` tells how the creation of that
/// folder ended, `encoded` holds the preferences as they are to be written, and `process` is the
/// number of the running process.
pub fn save_preferences(
    data_dir: &Path,
    created: Result<(), String>,
    encoded: Result<Vec<u8>, String>,
    process: u32,
) -> (begun: Result<AtomicWrite, AppError>)
    ensures
        error::viewed(begun) == match created {
            Ok(()) => save_start(
                paths::preferences_location(paths::path_bytes(data_dir)),
                encoded,
                process,
            ),
            Err(reason) => Err(
                ErrorView::Io {
                    context: "Could not create the application data folder"@,
                    reason: reason@,
                },
            ),
        },
        begun matches Ok(write) ==> write@.is_valid(),
{
    if let Err(reason) = created {
        return Err(AppError::io("Could not create the application data folder", reason));
    }
    match encoded {
        Ok(contents) => {
            let path = paths::preferences_path(data_dir);
            atomic_write::write_atomic(paths::as_path(&path), contents, process)
        },
        Err(reason) => Err(AppError::json(reason)),
    }
}

/// Begins to save the installation state in the folder `install_root`. `encoded` holds the state as
/// it is to be written, and `process` is the number of the running process.
pub fn save_state(
    install_root: &Path,
    encoded: Result<Vec<u8>, String>,
    process: u32,
) -> (begun: Result<AtomicWrite, AppError>)
    ensures
        error::viewed(begun) == save_start(
            paths::state_location(paths::path_bytes(install_root)),
            encoded,
            process,
        ),
        begun matches Ok(write) ==> write@.is_valid(),
{
    let path = paths::state_path(install_root);
    match encoded {
        Ok(contents) => atomic_write::write_atomic(paths::as_path(&path), contents, process),
        Err(reason) => Err(AppError::json(reason)),
    }
}

/// The manifests of the pinned depots.
pub open spec fn pinned_manifests() -> Map<u32, u64> {
    map![
        1_085_661u32 => 7_180_122_903_232_116_872u64,
        1_085_662u32 => 2_210_332_166_360_342_287u64,
    ]
}

/// The state that records an installation made at the moment `installed_at`.
pub open spec fn state_of_install(
    release_tag: Seq<char>,
    release_asset: Seq<char>,
    release_asset_digest: Option<Seq<char>>,
    installed_dll_sha256: Seq<char>,
    installed_at: Timestamp,
) -> StateView {
    StateView {
        schema_version: 1,
        app_id: 1_085_660,
        release_tag,
        release_asset,
        release_asset_digest,
        installed_dll_sha256,
        installed_at_utc: installed_at,
        manifests: pinned_manifests(),
    }
}

/// The manifests of the pinned depots.
fn depot_manifests() -> (manifests: BTreeMap<u32, u64>)
    ensures
        manifests@ == pinned_manifests(),
{
    let mut manifests: BTreeMap<u32, u64> = BTreeMap::new();
    manifests.insert(DEPOTS[0].0, DEPOTS[0].1);
    manifests.insert(DEPOTS[1].0, DEPOTS[1].1);
    assert(manifests@ =~= pinned_manifests());
    manifests
}

/// Records an installation made at the moment `installed_at`.
pub fn new_state_at(
    release_tag: String,
    release_asset: String,
    release_asset_digest: Option<String>,
    installed_dll_sha256: String,
    installed_at: Timestamp,
) -> (state: InstallerState)
    ensures
        state@ == state_of_install(
            release_tag@,
            release_asset@,
            text::optional_text(release_asset_digest),
            installed_dll_sha256@,
            installed_at,
        ),
{
    InstallerState {
        schema_version: models::schema_version(),
        app_id: STEAM_APP_ID,
        release_tag,
        release_asset,
        release_asset_digest,
        installed_dll_sha256,
        installed_at_utc: installed_at,
        manifests: depot_manifests(),
    }
}

/// Records an installation made now, as the system's clock has it. It panics where that clock stands
/// before 1970, or further off than chrono can count; `new_state_at` takes the moment as it is given.
pub fn new_state(
    release_tag: String,
    release_asset: String,
    release_asset_digest: Option<String>,
    installed_dll_sha256: String,
) -> (state: InstallerState)
    ensures
        state@ == state_of_install(
            release_tag@,
            release_asset@,
            text::optional_text(release_asset_digest),
            installed_dll_sha256@,
            state.installed_at_utc,
        ),
        state.installed_at_utc.nanoseconds < 1_000_000_000,
{
    let installed_at = clock::utc_now();
    new_state_at(
        release_tag,
        release_asset,
        release_asset_digest,
        installed_dll_sha256,
        installed_at,
    )
}

} // verus!
