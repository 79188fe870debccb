//! When two values hold the same, field by field.

use vstd::prelude::*;

use crate::error::AppError;
use crate::inspection::Inspection;
use crate::models::{
    InstallationSnapshot, InstallerState, PlatformSupport, Preferences, ReleaseInfo,
};
use crate::paths;

verus! {

/// Both texts are missing, or both are there and are the same.
pub open spec fn same_optional_text(one: Option<String>, other: Option<String>) -> bool {
    match (one, other) {
        (Some(a), Some(b)) => a@ == b@,
        (None, None) => true,
        _ => false,
    }
}

/// The errors are of one kind and hold the same texts.
pub open spec fn same_error(one: AppError, other: AppError) -> bool {
    match (one, other) {
        (AppError::Message(a), AppError::Message(b)) => a@ == b@,
        (
            AppError::Io { context: a, reason: b },
            AppError::Io { context: c, reason: d },
        ) => a@ == c@ && b@ == d@,
        (AppError::Json { reason: a }, AppError::Json { reason: b }) => a@ == b@,
        _ => false,
    }
}

/// The installation states hold the same.
pub open spec fn same_state(one: InstallerState, other: InstallerState) -> bool {
    &&& one.schema_version == other.schema_version
    &&& one.app_id == other.app_id
    &&& one.release_tag@ == other.release_tag@
    &&& one.release_asset@ == other.release_asset@
    &&& same_optional_text(one.release_asset_digest, other.release_asset_digest)
    &&& one.installed_dll_sha256@ == other.installed_dll_sha256@
    &&& one.installed_at_utc.seconds == other.installed_at_utc.seconds
    &&& one.installed_at_utc.nanoseconds == other.installed_at_utc.nanoseconds
    &&& one.manifests@ == other.manifests@
}

/// The preferences hold the same.
pub open spec fn same_preferences(one: Preferences, other: Preferences) -> bool {
    &&& one.install_directory@ == other.install_directory@
    &&& one.steam_username@ == other.steam_username@
    &&& one.auth_method == other.auth_method
}

/// The snapshots hold the same.
pub open spec fn same_snapshot(one: InstallationSnapshot, other: InstallationSnapshot) -> bool {
    &&& one.status@ == other.status@
    &&& one.message@ == other.message@
    &&& one.game_found == other.game_found
    &&& same_optional_text(one.installed_release, other.installed_release)
    &&& same_optional_text(one.installed_release_digest, other.installed_release_digest)
    &&& one.installed_at == other.installed_at
    &&& one.local_file_changed == other.local_file_changed
}

/// The inspections have come equally far in the same folder, with the same findings.
pub open spec fn same_inspection(one: Inspection, other: Inspection) -> bool {
    match (one, other) {
        (
            Inspection::FindGame { root: a },
            Inspection::FindGame { root: b },
        ) => paths::path_buf_bytes(a) == paths::path_buf_bytes(b),
        (
            Inspection::LoadState { root: a, game_found: found },
            Inspection::LoadState { root: b, game_found: also_found },
        ) => paths::path_buf_bytes(a) == paths::path_buf_bytes(b) && found == also_found,
        (
            Inspection::FindMod { root: a, game_found: found, state: s },
            Inspection::FindMod { root: b, game_found: also_found, state: t },
        ) => paths::path_buf_bytes(a) == paths::path_buf_bytes(b) && found == also_found
            && same_state(s, t),
        (
            Inspection::HashMod { root: a, game_found: found, state: s },
            Inspection::HashMod { root: b, game_found: also_found, state: t },
        ) => paths::path_buf_bytes(a) == paths::path_buf_bytes(b) && found == also_found
            && same_state(s, t),
        (
            Inspection::Finished { outcome: Ok(a) },
            Inspection::Finished { outcome: Ok(b) },
        ) => same_snapshot(a, b),
        (
            Inspection::Finished { outcome: Err(a) },
            Inspection::Finished { outcome: Err(b) },
        ) => same_error(a, b),
        _ => false,
    }
}

/// Errors look the same exactly if they hold the same.
pub proof fn errors_look_as_they_are(one: AppError, other: AppError)
    ensures
        one@ == other@ <==> same_error(one, other),
{
}

/// Installation states look the same exactly if they hold the same.
pub proof fn states_look_as_they_are(one: InstallerState, other: InstallerState)
    ensures
        one@ == other@ <==> same_state(one, other),
{
}

/// Preferences look the same exactly if they hold the same.
pub proof fn preferences_look_as_they_are(one: Preferences, other: Preferences)
    ensures
        one@ == other@ <==> same_preferences(one, other),
{
}

/// Snapshots look the same exactly if they hold the same.
pub proof fn snapshots_look_as_they_are(one: InstallationSnapshot, other: InstallationSnapshot)
    ensures
        one@ == other@ <==> same_snapshot(one, other),
{
}

/// Inspections look the same exactly if they have come equally far with the same findings.
pub proof fn inspections_look_as_they_are(one: Inspection, other: Inspection)
    ensures
        one@ == other@ <==> same_inspection(one, other),
{
}

/// Releases look the same exactly if they hold the same.
pub proof fn releases_look_as_they_are(one: ReleaseInfo, other: ReleaseInfo)
    ensures
        one@ == other@ <==> {
            &&& one.tag@ == other.tag@
            &&& one.asset_name@ == other.asset_name@
            &&& one.download_url@ == other.download_url@
            &&& one.size == other.size
            &&& same_optional_text(one.digest, other.digest)
        },
{
}

/// Platforms look the same exactly if they hold the same.
pub proof fn platforms_look_as_they_are(one: PlatformSupport, other: PlatformSupport)
    ensures
        one@ == other@ <==> {
            &&& one.os@ == other.os@
            &&& one.arch@ == other.arch@
            &&& one.level@ == other.level@
            &&& one.can_launch == other.can_launch
            &&& one.summary@ == other.summary@
        },
{
}

} // verus!
