//! Laws of paths, folders and errors.

use std::path::{Path, PathBuf};

use vstd::prelude::*;

use crate::error::AppError;
use crate::paths;
use crate::storage;

verus! {

/// Each file of an installation lies at one place below the installation folder, and the preferences
/// lie in the data folder, whatever the folder is.
pub proof fn files_lie_at_fixed_places(
    folder: &Path,
    game: PathBuf,
    state: PathBuf,
    dll: PathBuf,
    preferences: PathBuf,
)
    requires
        call_ensures(paths::game_path, (folder,), game),
        call_ensures(paths::state_path, (folder,), state),
        call_ensures(paths::mod_path, (folder,), dll),
        call_ensures(paths::preferences_path, (folder,), preferences),
    ensures
        paths::path_buf_bytes(game) == paths::joined(paths::path_bytes(folder), "destiny2.exe"@),
        paths::path_buf_bytes(state) == paths::joined(
            paths::joined(paths::path_bytes(folder), ".sunrise"@),
            "install-state.json"@,
        ),
        paths::path_buf_bytes(dll) == paths::joined(
            paths::joined(paths::joined(paths::path_bytes(folder), "bin"@), "x64"@),
            "steam_api64.dll"@,
        ),
        paths::path_buf_bytes(preferences) == paths::joined(
            paths::path_bytes(folder),
            "preferences.json"@,
        ),
{
}

/// A folder of the system is passed on as it is. Where there is none, the error says which folder is
/// missing and ends with the reason that the system gave.
pub proof fn folders_of_the_system_are_passed_on(
    resolved: Result<PathBuf, String>,
    data: Result<PathBuf, AppError>,
    cache: Result<PathBuf, AppError>,
)
    requires
        call_ensures(storage::app_data_dir, (resolved,), data),
        call_ensures(storage::app_cache_dir, (resolved,), cache),
    ensures
        resolved matches Ok(folder) ==> data == Ok::<PathBuf, AppError>(folder) && cache == Ok::<
            PathBuf,
            AppError,
        >(folder),
        resolved matches Err(reason) ==> {
            &&& data matches Err(AppError::Message(text))
            &&& text@ == "The application data folder is unavailable: "@ + reason@
        },
        resolved matches Err(reason) ==> {
            &&& cache matches Err(AppError::Message(text))
            &&& text@ == "The application cache folder is unavailable: "@ + reason@
        },
{
}

/// The folder that is proposed is the parent of the launcher's own path, and if that parent was
/// written as a text it is that text. Without a parent, or without a path, there is an error.
pub proof fn the_launchers_own_folder_is_proposed(
    executable: Result<PathBuf, String>,
    directory: Result<String, AppError>,
    folder: Seq<u8>,
    written: Seq<char>,
)
    requires
        call_ensures(storage::default_install_directory, (executable,), directory),
    ensures
        executable matches Ok(path) && paths::parent_of(paths::path_buf_bytes(path)) == Some(folder)
            ==> (directory matches Ok(text) && text@ == paths::lossy_text_of(folder) && (folder
            == vstd::utf8::encode_utf8(written) ==> text@ == written)),
        executable matches Ok(path) && paths::parent_of(paths::path_buf_bytes(path)) is None ==> (
        directory matches Err(AppError::Message(text)) && text@
            == "The launcher executable has no parent folder."@),
        executable matches Err(why) ==> (directory matches Err(AppError::Io { context, reason })
            && context@ == "Could not locate the launcher executable"@ && reason@ == why@),
{
}

/// A folder holds an installation already if the game was found in it, or a state, or both, and only
/// then.
pub proof fn either_finding_makes_an_installation(game: bool, state: bool, existing: bool)
    requires
        call_ensures(storage::is_existing_installation_directory, (game, state), existing),
    ensures
        game ==> existing,
        state ==> existing,
        existing && !game ==> state,
{
}

/// An error holds the texts that it was made from.
pub proof fn errors_hold_their_texts(
    first: &str,
    second: String,
    message: AppError,
    io: AppError,
    json: AppError,
)
    requires
        call_ensures(AppError::message, (first,), message),
        call_ensures(AppError::io, (first, second), io),
        call_ensures(AppError::json, (second,), json),
    ensures
        message matches AppError::Message(text) && text@ == first@,
        io matches AppError::Io { context, reason } && context@ == first@ && reason@ == second@,
        json matches AppError::Json { reason } && reason@ == second@,
{
}

} // verus!
