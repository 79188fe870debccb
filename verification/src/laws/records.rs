//! Laws of saved records.
//!
//! How a record is written as bytes is left open here: a law speaks of any decoding under which the
//! bytes that were saved stand for the record.

use vstd::prelude::*;

use crate::atomic_write::WriteView;
use crate::clock::Timestamp;
use crate::digest;
use crate::error::{AppError, ErrorView};
use crate::inspection;
use crate::inspection::InspectionView;
use crate::laws::digests;
use crate::laws::inspections;
use crate::laws::inspections::FolderContents;
use crate::laws::likeness;
use crate::laws::writes;
use crate::models;
use crate::models::{AuthMethod, InstallerState, Preferences, PreferencesView, ReleaseView, StateView};
use crate::paths;
use crate::storage;
use crate::storage::StoredFile;
use crate::text;

verus! {

/// `file` is what a reading of the file at `location` gives, if nothing hinders it.
pub open spec fn is_reading<T: View>(
    file: StoredFile<T>,
    disk: writes::Disk,
    location: Seq<u8>,
    decode: spec_fn(Seq<u8>) -> Option<T::V>,
) -> bool {
    match file {
        StoredFile::Absent => !disk.contains_key(location),
        StoredFile::Unreadable(_) => false,
        StoredFile::Malformed(_) => disk.contains_key(location) && decode(disk[location]) is None,
        StoredFile::Parsed(value) => disk.contains_key(location) && decode(disk[location]) == Some(
            value@,
        ),
    }
}

/// What was saved in full lies where it was saved, whatever lay there before.
pub proof fn what_was_saved_is_found_again(
    location: Seq<u8>,
    encoded: Vec<u8>,
    process: u32,
    write: WriteView,
    disk: writes::Disk,
)
    requires
        storage::save_start(location, Ok(encoded), process) == Ok::<WriteView, ErrorView>(write),
        write.is_valid(),
    ensures
        ({
            let after = writes::carried_out(write, disk, 5).1;
            after.contains_key(location) && after[location] == encoded@
        }),
{
    writes::a_finished_write_is_read_back(write, disk, 5);
}

/// Preferences that were saved in full are the ones that are loaded, field by field, whatever the
/// file held before.
pub proof fn saved_preferences_are_loaded(
    data_dir: Seq<u8>,
    preferences: PreferencesView,
    encoded: Vec<u8>,
    decode: spec_fn(Seq<u8>) -> Option<PreferencesView>,
    process: u32,
    write: WriteView,
    disk: writes::Disk,
    file: StoredFile<Preferences>,
)
    requires
        decode(encoded@) == Some(preferences),
        storage::save_start(paths::preferences_location(data_dir), Ok(encoded), process) == Ok::<
            WriteView,
            ErrorView,
        >(write),
        write.is_valid(),
        is_reading(
            file,
            writes::carried_out(write, disk, 5).1,
            paths::preferences_location(data_dir),
            decode,
        ),
    ensures
        storage::effective_preferences(file) == Ok::<PreferencesView, ErrorView>(preferences),
{
    what_was_saved_is_found_again(
        paths::preferences_location(data_dir),
        encoded,
        process,
        write,
        disk,
    );
}

/// An installation state that was saved in full is the one that is loaded, field by field, whatever
/// the file held before.
pub proof fn a_saved_state_is_loaded(
    root: Seq<u8>,
    state: StateView,
    encoded: Vec<u8>,
    decode: spec_fn(Seq<u8>) -> Option<StateView>,
    process: u32,
    write: WriteView,
    disk: writes::Disk,
    file: StoredFile<InstallerState>,
)
    requires
        decode(encoded@) == Some(state),
        storage::save_start(paths::state_location(root), Ok(encoded), process) == Ok::<
            WriteView,
            ErrorView,
        >(write),
        write.is_valid(),
        is_reading(
            file,
            writes::carried_out(write, disk, 5).1,
            paths::state_location(root),
            decode,
        ),
    ensures
        storage::recorded_state(file) == Ok::<Option<StateView>, ErrorView>(Some(state)),
{
    what_was_saved_is_found_again(paths::state_location(root), encoded, process, write, disk);
}

/// An installation that was recorded and saved in full is what an inspection of its folder reports:
/// whatever it comes to, it shows the release that was recorded, and that release is no update of
/// it. Where the DLL is there, it is found to be installed if its digest is still that of the DLL
/// which was installed, and to be modified if not.
pub proof fn a_saved_installation_is_inspected(
    path: Seq<char>,
    release: ReleaseView,
    installed_dll: Seq<u8>,
    installed_at: Timestamp,
    encoded: Vec<u8>,
    decode: spec_fn(Seq<u8>) -> Option<StateView>,
    process: u32,
    write: WriteView,
    disk: writes::Disk,
    file: StoredFile<InstallerState>,
    contents: FolderContents,
    present_dll: Seq<u8>,
)
    requires
        !text::is_blank(path),
        decode(encoded@) == Some(
            storage::state_of_install(
                release.tag,
                release.asset_name,
                release.digest,
                digest::hex_text(digest::sha256(installed_dll)),
                installed_at,
            ),
        ),
        storage::save_start(
            paths::state_location(vstd::utf8::encode_utf8(text::trimmed(path))),
            Ok(encoded),
            process,
        ) == Ok::<WriteView, ErrorView>(write),
        write.is_valid(),
        is_reading(
            file,
            writes::carried_out(write, disk, 5).1,
            paths::state_location(vstd::utf8::encode_utf8(text::trimmed(path))),
            decode,
        ),
        contents.state == storage::recorded_state(file),
        contents.mod_found ==> contents.hash == Ok::<Seq<char>, ErrorView>(
            digest::hex_text(digest::sha256(present_dll)),
        ),
    ensures
        contents.inspected(inspection::inspection_start(path), 4) matches InspectionView::Finished {
            outcome: Ok(snapshot),
        } && {
            &&& snapshot.installed_release == Some(release.tag)
            &&& snapshot.installed_release_digest == release.digest
            &&& snapshot.installed_at == Some(installed_at)
            &&& snapshot.game_found == contents.game_found
            &&& !models::is_update(snapshot, release)
            &&& if !contents.mod_found {
                snapshot.status == "needsRepair"@ && snapshot.local_file_changed
            } else if digest::sha256(present_dll) == digest::sha256(installed_dll) {
                snapshot.status == "installed"@ && !snapshot.local_file_changed
            } else {
                snapshot.status == "modified"@ && snapshot.local_file_changed
            }
        },
{
    let root = vstd::utf8::encode_utf8(text::trimmed(path));
    let hash = digest::hex_text(digest::sha256(installed_dll));
    let state = storage::state_of_install(
        release.tag,
        release.asset_name,
        release.digest,
        hash,
        installed_at,
    );
    a_saved_state_is_loaded(root, state, encoded, decode, process, write, disk, file);
    inspections::an_inspection_comes_to_an_end(path, contents, 4);
    digests::a_changed_file_is_noticed(contents.game_found, state, installed_dll, present_dll);
    inspections::the_recorded_release_is_never_an_update(
        path,
        contents,
        release,
        hash,
        installed_at,
        contents.outcome(path)->Ok_0,
    );
}

/// `state` is the record of an installation of the game: of the given release and DLL, in the only
/// version of such records, and with the manifests of the two pinned depots and no others.
pub open spec fn is_record_of(
    state: InstallerState,
    release_tag: String,
    release_asset: String,
    release_asset_digest: Option<String>,
    installed_dll_sha256: String,
) -> bool {
    &&& state.schema_version == 1
    &&& state.app_id == 1_085_660
    &&& state.release_tag@ == release_tag@
    &&& state.release_asset@ == release_asset@
    &&& likeness::same_optional_text(state.release_asset_digest, release_asset_digest)
    &&& state.installed_dll_sha256@ == installed_dll_sha256@
    &&& forall|depot: u32| #[trigger]
        state.manifests@.contains_key(depot) <==> depot == 1_085_661 || depot == 1_085_662
    &&& state.manifests@[1_085_661] == 7_180_122_903_232_116_872
    &&& state.manifests@[1_085_662] == 2_210_332_166_360_342_287
}

/// Every installation is recorded with what it was given, at the moment it was given, whatever the
/// texts are.
pub proof fn every_installation_is_recorded_in_full(
    release_tag: String,
    release_asset: String,
    release_asset_digest: Option<String>,
    installed_dll_sha256: String,
    installed_at: Timestamp,
    state: InstallerState,
)
    requires
        call_ensures(
            storage::new_state_at,
            (
                release_tag,
                release_asset,
                release_asset_digest,
                installed_dll_sha256,
                installed_at,
            ),
            state,
        ),
    ensures
        is_record_of(
            state,
            release_tag,
            release_asset,
            release_asset_digest,
            installed_dll_sha256,
        ),
        state.installed_at_utc.seconds == installed_at.seconds,
        state.installed_at_utc.nanoseconds == installed_at.nanoseconds,
{
}

/// An installation that is made now is recorded with what it was given too, at a moment of which the
/// nanoseconds are those within a second.
pub proof fn a_new_installation_is_recorded_in_full(
    release_tag: String,
    release_asset: String,
    release_asset_digest: Option<String>,
    installed_dll_sha256: String,
    state: InstallerState,
)
    requires
        call_ensures(
            storage::new_state,
            (release_tag, release_asset, release_asset_digest, installed_dll_sha256),
            state,
        ),
    ensures
        is_record_of(
            state,
            release_tag,
            release_asset,
            release_asset_digest,
            installed_dll_sha256,
        ),
        state.installed_at_utc.nanoseconds < 1_000_000_000,
{
}

/// A state that names no version and no game is of the version and the game that are recorded for
/// every installation.
pub proof fn what_a_state_leaves_out_is_what_is_recorded(
    release_tag: String,
    release_asset: String,
    release_asset_digest: Option<String>,
    installed_dll_sha256: String,
    installed_at: Timestamp,
    state: InstallerState,
    version: u8,
    app_id: u32,
)
    requires
        call_ensures(
            storage::new_state_at,
            (
                release_tag,
                release_asset,
                release_asset_digest,
                installed_dll_sha256,
                installed_at,
            ),
            state,
        ),
        call_ensures(models::schema_version, (), version),
        call_ensures(models::steam_app_id, (), app_id),
    ensures
        state.schema_version == version,
        state.app_id == app_id,
        version == 1,
        app_id == 1_085_660,
{
}

/// The preferences hold nothing that a user has set: no folder, no name, and the method of the code
/// that is scanned.
pub open spec fn is_unset(preferences: Preferences) -> bool {
    &&& preferences.install_directory@.len() == 0
    &&& preferences.steam_username@.len() == 0
    &&& preferences.auth_method == AuthMethod::Qr
}

/// Preferences are loaded as the file holds them. Without a file, and from a file that makes no
/// sense, for whatever reason, they are unset. A file that cannot be read is reported.
pub proof fn preferences_come_from_the_file_or_are_unset(
    file: StoredFile<Preferences>,
    loaded: Result<Preferences, AppError>,
)
    requires
        call_ensures(storage::load_preferences, (file,), loaded),
    ensures
        match file {
            StoredFile::Absent => loaded matches Ok(preferences) && is_unset(preferences),
            StoredFile::Malformed(_) => loaded matches Ok(preferences) && is_unset(preferences),
            StoredFile::Parsed(stored) => loaded matches Ok(preferences)
                && likeness::same_preferences(preferences, stored),
            StoredFile::Unreadable(why) => {
                &&& loaded matches Err(AppError::Io { context, reason })
                &&& context@ == "Could not read preferences"@
                &&& reason@ == why@
            },
        },
{
}

/// Preferences and methods are unset by default.
pub proof fn the_default_is_unset(preferences: Preferences, method: AuthMethod)
    requires
        call_ensures(<Preferences as Default>::default, (), preferences),
        call_ensures(<AuthMethod as Default>::default, (), method),
    ensures
        is_unset(preferences),
        method == AuthMethod::Qr,
{
}

/// A state is loaded as the file holds it, and without a file there is none. Unlike preferences, a
/// state that makes no sense is reported, as is one that cannot be read.
pub proof fn a_state_comes_from_the_file_or_is_reported(
    file: StoredFile<InstallerState>,
    loaded: Result<Option<InstallerState>, AppError>,
)
    requires
        call_ensures(storage::load_state, (file,), loaded),
    ensures
        match file {
            StoredFile::Absent => loaded matches Ok(None),
            StoredFile::Parsed(stored) => loaded matches Ok(Some(state)) && likeness::same_state(
                state,
                stored,
            ),
            StoredFile::Malformed(why) => loaded matches Err(AppError::Json { reason }) && reason@
                == why@,
            StoredFile::Unreadable(why) => {
                &&& loaded matches Err(AppError::Io { context, reason })
                &&& context@ == "Could not read the installation state"@
                &&& reason@ == why@
            },
        },
{
}

} // verus!
