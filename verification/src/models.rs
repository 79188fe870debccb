//! What the launcher knows: releases, installations, preferences and requests.

use std::collections::BTreeMap;

use vstd::prelude::*;

use crate::clock::Timestamp;
use crate::text;

verus! {

/// The game's number on Steam.
pub const STEAM_APP_ID: u32 = 1_085_660;

/// The file that the game is started from, directly in the installation folder.
pub const GAME_EXECUTABLE: &'static str = "destiny2.exe";

/// The way from the installation folder to the Sunrise DLL.
pub const MOD_RELATIVE_PATH: [&'static str; 3] = ["bin", "x64", "steam_api64.dll"];

/// The free space that a fresh installation needs.
pub const FRESH_INSTALL_BYTES: u64 = 110 * 1024 * 1024 * 1024;

/// The free space that a repair needs.
pub const REPAIR_BYTES: u64 = 5 * 1024 * 1024 * 1024;

/// The free space that an update needs.
pub const UPDATE_BYTES: u64 = 256 * 1024 * 1024;

/// The pinned depots of the game, each with its manifest.
pub const DEPOTS: [(u32, u64); 2] = [
    (1_085_661, 7_180_122_903_232_116_872),
    (1_085_662, 2_210_332_166_360_342_287),
];

/// How the user proves to Steam who they are.
#[derive(Clone, Copy, Debug, PartialEq, Eq, Structural)]
pub enum AuthMethod {
    Qr,
    TwoFactor,
}

impl Default for AuthMethod {
    fn default() -> (method: AuthMethod)
        ensures
            method == AuthMethod::Qr,
    {
        AuthMethod::Qr
    }
}

/// What the launcher remembers between two runs. It holds no password, code or session.
#[derive(Clone, Debug)]
pub struct Preferences {
    pub install_directory: String,
    pub steam_username: String,
    pub auth_method: AuthMethod,
}

/// The texts and choices of `Preferences`.
pub struct PreferencesView {
    pub install_directory: Seq<char>,
    pub steam_username: Seq<char>,
    pub auth_method: AuthMethod,
}

impl View for Preferences {
    type V = PreferencesView;

    open spec fn view(&self) -> PreferencesView {
        PreferencesView {
            install_directory: self.install_directory@,
            steam_username: self.steam_username@,
            auth_method: self.auth_method,
        }
    }
}

/// The preferences of a user who has set nothing.
pub open spec fn default_preferences() -> PreferencesView {
    PreferencesView {
        install_directory: Seq::empty(),
        steam_username: Seq::empty(),
        auth_method: AuthMethod::Qr,
    }
}

impl Default for Preferences {
    fn default() -> (preferences: Preferences)
        ensures
            preferences@ == default_preferences(),
    {
        Preferences {
            install_directory: String::new(),
            steam_username: String::new(),
            auth_method: AuthMethod::Qr,
        }
    }
}

/// What the launcher can do on a platform.
#[derive(Clone, Debug)]
pub struct PlatformSupport {
    pub os: String,
    pub arch: String,
    pub level: String,
    pub can_launch: bool,
    pub summary: String,
}

/// The texts of `PlatformSupport`.
pub struct PlatformView {
    pub os: Seq<char>,
    pub arch: Seq<char>,
    pub level: Seq<char>,
    pub can_launch: bool,
    pub summary: Seq<char>,
}

impl View for PlatformSupport {
    type V = PlatformView;

    open spec fn view(&self) -> PlatformView {
        PlatformView {
            os: self.os@,
            arch: self.arch@,
            level: self.level@,
            can_launch: self.can_launch,
            summary: self.summary@,
        }
    }
}

/// A published release of the mod.
#[derive(Clone, Debug)]
pub struct ReleaseInfo {
    pub tag: String,
    pub asset_name: String,
    pub download_url: String,
    pub size: u64,
    pub digest: Option<String>,
}

/// The texts of a `ReleaseInfo`.
pub struct ReleaseView {
    pub tag: Seq<char>,
    pub asset_name: Seq<char>,
    pub download_url: Seq<char>,
    pub size: u64,
    pub digest: Option<Seq<char>>,
}

impl View for ReleaseInfo {
    type V = ReleaseView;

    open spec fn view(&self) -> ReleaseView {
        ReleaseView {
            tag: self.tag@,
            asset_name: self.asset_name@,
            download_url: self.download_url@,
            size: self.size,
            digest: text::optional_text(self.digest),
        }
    }
}

/// What the launcher has recorded of an installation that it made.
#[derive(Clone, Debug)]
pub struct InstallerState {
    pub schema_version: u8,
    pub app_id: u32,
    pub release_tag: String,
    pub release_asset: String,
    pub release_asset_digest: Option<String>,
    pub installed_dll_sha256: String,
    pub installed_at_utc: Timestamp,
    pub manifests: BTreeMap<u32, u64>,
}

/// The texts and numbers of an `InstallerState`.
pub struct StateView {
    pub schema_version: u8,
    pub app_id: u32,
    pub release_tag: Seq<char>,
    pub release_asset: Seq<char>,
    pub release_asset_digest: Option<Seq<char>>,
    pub installed_dll_sha256: Seq<char>,
    pub installed_at_utc: Timestamp,
    pub manifests: Map<u32, u64>,
}

impl View for InstallerState {
    type V = StateView;

    open spec fn view(&self) -> StateView {
        StateView {
            schema_version: self.schema_version,
            app_id: self.app_id,
            release_tag: self.release_tag@,
            release_asset: self.release_asset@,
            release_asset_digest: text::optional_text(self.release_asset_digest),
            installed_dll_sha256: self.installed_dll_sha256@,
            installed_at_utc: self.installed_at_utc,
            manifests: self.manifests@,
        }
    }
}

/// The version of the installation state that the launcher writes, and takes a state to have that
/// names none.
pub fn schema_version() -> (version: u8)
    ensures
        version == 1,
{
    1
}

/// The game that an installation state is of when it names none.
pub fn steam_app_id() -> (app_id: u32)
    ensures
        app_id == 1_085_660,
{
    STEAM_APP_ID
}

/// What an installation folder was found to hold.
#[derive(Clone, Debug)]
pub struct InstallationSnapshot {
    pub status: String,
    pub message: String,
    pub game_found: bool,
    pub installed_release: Option<String>,
    pub installed_release_digest: Option<String>,
    pub installed_at: Option<Timestamp>,
    pub local_file_changed: bool,
}

/// The texts and findings of an `InstallationSnapshot`.
pub struct SnapshotView {
    pub status: Seq<char>,
    pub message: Seq<char>,
    pub game_found: bool,
    pub installed_release: Option<Seq<char>>,
    pub installed_release_digest: Option<Seq<char>>,
    pub installed_at: Option<Timestamp>,
    pub local_file_changed: bool,
}

impl View for InstallationSnapshot {
    type V = SnapshotView;

    open spec fn view(&self) -> SnapshotView {
        SnapshotView {
            status: self.status@,
            message: self.message@,
            game_found: self.game_found,
            installed_release: text::optional_text(self.installed_release),
            installed_release_digest: text::optional_text(self.installed_release_digest),
            installed_at: self.installed_at,
            local_file_changed: self.local_file_changed,
        }
    }
}

/// The snapshot of a folder in which nothing was found.
pub open spec fn missing_snapshot(message: Seq<char>) -> SnapshotView {
    SnapshotView {
        status: "notInstalled"@,
        message,
        game_found: false,
        installed_release: None,
        installed_release_digest: None,
        installed_at: None,
        local_file_changed: false,
    }
}

/// A digest that says something: one that is there and is not blank.
pub open spec fn stated_digest(digest: Option<Seq<char>>) -> Option<Seq<char>> {
    match digest {
        Some(value) if !text::is_blank(value) => Some(value),
        _ => None,
    }
}

/// Two digests contradict each other: both say something, and not the same.
pub open spec fn digests_differ(one: Option<Seq<char>>, other: Option<Seq<char>>) -> bool {
    match (stated_digest(one), stated_digest(other)) {
        (Some(a), Some(b)) => !text::same_ignoring_case(a, b),
        _ => false,
    }
}

/// `latest` is another release than the one that is installed.
pub open spec fn is_update(installed: SnapshotView, latest: ReleaseView) -> bool {
    match installed.installed_release {
        Some(tag) => {
            ||| !text::same_ignoring_case(tag, latest.tag)
            ||| digests_differ(installed.installed_release_digest, latest.digest)
        },
        None => false,
    }
}

/// The text of a digest that says something.
fn present_digest(digest: &Option<String>) -> (present: Option<&str>)
    ensures
        match present {
            Some(value) => stated_digest(text::optional_text(*digest)) == Some(value@),
            None => stated_digest(text::optional_text(*digest)) is None,
        },
{
    match digest {
        Some(value) => {
            let value = value.as_str();
            proof {
                text::blank_text_trims_to_nothing(value@);
            }
            if value.trim().is_empty() {
                None
            } else {
                Some(value)
            }
        },
        None => None,
    }
}

impl InstallationSnapshot {
    /// The snapshot of a folder in which nothing was found, for the reason that `message` gives.
    pub fn missing(message: &str) -> (snapshot: InstallationSnapshot)
        ensures
            snapshot@ == missing_snapshot(message@),
    {
        InstallationSnapshot {
            status: "notInstalled".to_owned(),
            message: message.to_owned(),
            game_found: false,
            installed_release: None,
            installed_release_digest: None,
            installed_at: None,
            local_file_changed: false,
        }
    }

    /// Tells whether `latest` is another release than the one that is installed: its tag differs, or
    /// both digests are known and differ. Case does not matter, and where nothing is installed there
    /// is nothing to update.
    pub fn update_available(&self, latest: &ReleaseInfo) -> (available: bool)
        ensures
            available == is_update(self@, latest@),
    {
        let installed_tag = match &self.installed_release {
            Some(tag) => tag.as_str(),
            None => {
                return false;
            },
        };
        if !installed_tag.eq_ignore_ascii_case(latest.tag.as_str()) {
            return true;
        }
        let installed_digest = match present_digest(&self.installed_release_digest) {
            Some(digest) => digest,
            None => {
                return false;
            },
        };
        let latest_digest = match present_digest(&latest.digest) {
            Some(digest) => digest,
            None => {
                return false;
            },
        };
        !installed_digest.eq_ignore_ascii_case(latest_digest)
    }
}

/// All that the launcher shows when it starts.
#[derive(Clone, Debug)]
pub struct AppSnapshot {
    pub platform: PlatformSupport,
    pub preferences: Preferences,
    pub installation: InstallationSnapshot,
    pub latest_release: Option<ReleaseInfo>,
    pub update_available: bool,
    pub release_error: Option<String>,
}

/// What the user can ask the launcher to do.
#[derive(Clone, Copy, Debug)]
pub enum OperationKind {
    Install,
    Repair,
    Update,
}

/// A request of the user.
#[derive(Clone, Debug)]
pub struct OperationRequest {
    pub kind: OperationKind,
    pub install_directory: String,
    pub steam_username: String,
    pub auth_method: AuthMethod,
}

/// What a finished operation has done.
#[derive(Clone, Debug)]
pub struct OperationResult {
    pub changed: bool,
    pub release_tag: String,
    pub message: String,
}

/// What the launcher can do on the operating system `os` with processors of the kind `arch`.
pub open spec fn platform_support(os: Seq<char>, arch: Seq<char>) -> PlatformView {
    if os == "windows"@ {
        PlatformView {
            os,
            arch,
            level: "supported"@,
            can_launch: true,
            summary: "Native install, repair, update, and launch support."@,
        }
    } else if os == "linux"@ {
        PlatformView {
            os,
            arch,
            level: "experimental"@,
            can_launch: false,
            summary: "Native installation is supported; launching through Proton is a follow-up integration."@,
        }
    } else if os == "macos"@ {
        PlatformView {
            os,
            arch,
            level: "installOnly"@,
            can_launch: false,
            summary: "The Windows game files can be managed, but Sunrise cannot currently run on macOS."@,
        }
    } else {
        PlatformView {
            os,
            arch,
            level: "unsupported"@,
            can_launch: false,
            summary: "This platform does not have a matching DepotDownloader build."@,
        }
    }
}

/// Tells what the launcher can do on the platform that it runs on, whose operating system and
/// processor kind are given by their usual names.
pub fn current_platform(os: &str, arch: &str) -> (platform: PlatformSupport)
    ensures
        platform@ == platform_support(os@, arch@),
{
    let os = os.to_owned();
    let arch = arch.to_owned();
    if os == "windows".to_owned() {
        PlatformSupport {
            os,
            arch,
            level: "supported".to_owned(),
            can_launch: true,
            summary: "Native install, repair, update, and launch support.".to_owned(),
        }
    } else if os == "linux".to_owned() {
        PlatformSupport {
            os,
            arch,
            level: "experimental".to_owned(),
            can_launch: false,
            summary: "Native installation is supported; launching through Proton is a follow-up integration.".to_owned(),
        }
    } else if os == "macos".to_owned() {
        PlatformSupport {
            os,
            arch,
            level: "installOnly".to_owned(),
            can_launch: false,
            summary: "The Windows game files can be managed, but Sunrise cannot currently run on macOS.".to_owned(),
        }
    } else {
        PlatformSupport {
            os,
            arch,
            level: "unsupported".to_owned(),
            can_launch: false,
            summary: "This platform does not have a matching DepotDownloader build.".to_owned(),
        }
    }
}

} // verus!
