use std::collections::BTreeMap;

use sunrise_launcher::clock::Timestamp;
use sunrise_launcher::models::{
    current_platform, schema_version, steam_app_id, AuthMethod, InstallationSnapshot,
    InstallerState, Preferences, ReleaseInfo, DEPOTS, FRESH_INSTALL_BYTES, GAME_EXECUTABLE,
    MOD_RELATIVE_PATH, REPAIR_BYTES, STEAM_APP_ID, UPDATE_BYTES,
};
use sunrise_launcher::storage::{load_state, StoredFile};
use sunrise_launcher::window::{cancels_active_operation, WindowEvent};

fn installed_snapshot(digest: Option<&str>) -> InstallationSnapshot {
    InstallationSnapshot {
        status: "installed".into(),
        message: "Sunrise is installed and ready.".into(),
        game_found: true,
        installed_release: Some("v1.2.3".into()),
        installed_release_digest: digest.map(str::to_owned),
        installed_at: None,
        local_file_changed: false,
    }
}

fn latest_release(tag: &str, digest: Option<&str>) -> ReleaseInfo {
    ReleaseInfo {
        tag: tag.into(),
        asset_name: "steam_api64.dll".into(),
        download_url: "https://example.invalid/steam_api64.dll".into(),
        size: 1,
        digest: digest.map(str::to_owned),
    }
}

#[test]
fn update_detection_matches_the_legacy_tag_and_digest_rules() {
    let installed = installed_snapshot(Some("sha256:aabb"));
    assert!(!installed.update_available(&latest_release("V1.2.3", Some("SHA256:AABB"))));
    assert!(installed.update_available(&latest_release("v1.2.4", Some("sha256:aabb"))));
    assert!(installed.update_available(&latest_release("v1.2.3", Some("sha256:ccdd"))));
    assert!(!installed.update_available(&latest_release("v1.2.3", None)));
}

fn text_of(value: &serde_json::Value, key: &str) -> String {
    value.get(key).and_then(|field| field.as_str()).unwrap().to_owned()
}

fn number_of(value: &serde_json::Value, key: &str) -> u64 {
    value.get(key).and_then(|field| field.as_u64()).unwrap()
}

#[test]
fn reads_install_state_written_by_the_legacy_launcher() {
    let value: serde_json::Value = serde_json::from_str(
        r#"{
                "schemaVersion": 1,
                "appId": 1085660,
                "releaseTag": "v1.2.3",
                "releaseAsset": "steam_api64.dll",
                "releaseAssetDigest": "sha256:aabb",
                "installedDllSha256": "ccdd",
                "installedAtUtc": "2026-08-26T12:00:00+00:00",
                "manifests": { "1085661": 7180122903232116872 }
            }"#,
    )
    .expect("legacy state should remain compatible");
    let moment = text_of(&value, "installedAtUtc")
        .parse::<chrono::DateTime<chrono::Utc>>()
        .unwrap();
    let mut manifests: BTreeMap<u32, u64> = BTreeMap::new();
    for (depot, manifest) in value.get("manifests").unwrap().as_object().unwrap() {
        manifests.insert(depot.parse().unwrap(), manifest.as_u64().unwrap());
    }
    let state = InstallerState {
        schema_version: u8::try_from(number_of(&value, "schemaVersion")).unwrap(),
        app_id: u32::try_from(number_of(&value, "appId")).unwrap(),
        release_tag: text_of(&value, "releaseTag"),
        release_asset: text_of(&value, "releaseAsset"),
        release_asset_digest: Some(text_of(&value, "releaseAssetDigest")),
        installed_dll_sha256: text_of(&value, "installedDllSha256"),
        installed_at_utc: Timestamp {
            seconds: moment.timestamp(),
            nanoseconds: moment.timestamp_subsec_nanos(),
        },
        manifests,
    };
    let state = load_state(StoredFile::Parsed(state)).unwrap().unwrap();

    assert_eq!(state.release_tag, "v1.2.3");
    assert_eq!(state.release_asset_digest.as_deref(), Some("sha256:aabb"));
    assert_eq!(
        state.manifests.get(&1_085_661),
        Some(&7_180_122_903_232_116_872)
    );
    assert_eq!(state.schema_version, schema_version());
    assert_eq!(state.app_id, steam_app_id());
    assert_eq!(state.installed_at_utc.seconds, 1_787_745_600);
}

#[test]
fn blank_digests_say_nothing() {
    for blank in ["", "  ", "\t\r\n", "\u{a0}\u{2003}\u{3000}"] {
        let installed = installed_snapshot(Some(blank));
        assert!(!installed.update_available(&latest_release("v1.2.3", Some("sha256:aabb"))));
        let installed = installed_snapshot(Some("sha256:aabb"));
        assert!(!installed.update_available(&latest_release("v1.2.3", Some(blank))));
    }
}

#[test]
fn a_digest_with_space_around_it_is_compared_as_it_is() {
    let installed = installed_snapshot(Some("sha256:aabb"));
    assert!(installed.update_available(&latest_release("v1.2.3", Some(" sha256:aabb"))));
    assert!(!installed_snapshot(Some(" sha256:aabb"))
        .update_available(&latest_release("v1.2.3", Some(" SHA256:AABB"))));
}

#[test]
fn nothing_installed_is_never_updated() {
    let snapshot = InstallationSnapshot::missing("Nothing here.");
    assert!(!snapshot.update_available(&latest_release("v1.2.3", Some("sha256:aabb"))));
}

#[test]
fn letters_beyond_ascii_keep_their_case() {
    let mut installed = installed_snapshot(None);
    installed.installed_release = Some("v\u{e4}".into());
    assert!(installed.update_available(&latest_release("v\u{c4}", None)));
    assert!(!installed.update_available(&latest_release("V\u{e4}", None)));
}

#[test]
fn a_missing_installation_has_nothing_but_its_message() {
    let snapshot = InstallationSnapshot::missing("Nothing here.");
    assert_eq!(snapshot.status, "notInstalled");
    assert_eq!(snapshot.message, "Nothing here.");
    assert!(!snapshot.game_found);
    assert_eq!(snapshot.installed_release, None);
    assert_eq!(snapshot.installed_release_digest, None);
    assert_eq!(snapshot.installed_at, None);
    assert!(!snapshot.local_file_changed);
}

#[test]
fn platforms_are_supported_as_documented() {
    for arch in ["x86_64", "aarch64"] {
        let windows = current_platform("windows", arch);
        assert_eq!((windows.os.as_str(), windows.arch.as_str()), ("windows", arch));
        assert_eq!(windows.level, "supported");
        assert!(windows.can_launch);
        assert_eq!(
            windows.summary,
            "Native install, repair, update, and launch support."
        );

        let linux = current_platform("linux", arch);
        assert_eq!((linux.os.as_str(), linux.arch.as_str()), ("linux", arch));
        assert_eq!(linux.level, "experimental");
        assert!(!linux.can_launch);
        assert_eq!(
            linux.summary,
            "Native installation is supported; launching through Proton is a follow-up integration."
        );

        let macos = current_platform("macos", arch);
        assert_eq!((macos.os.as_str(), macos.arch.as_str()), ("macos", arch));
        assert_eq!(macos.level, "installOnly");
        assert!(!macos.can_launch);
        assert_eq!(
            macos.summary,
            "The Windows game files can be managed, but Sunrise cannot currently run on macOS."
        );

        let other = current_platform("freebsd", arch);
        assert_eq!((other.os.as_str(), other.arch.as_str()), ("freebsd", arch));
        assert_eq!(other.level, "unsupported");
        assert!(!other.can_launch);
        assert_eq!(
            other.summary,
            "This platform does not have a matching DepotDownloader build."
        );
    }
}

#[test]
fn constants_have_their_documented_values() {
    assert_eq!(STEAM_APP_ID, 1_085_660);
    assert_eq!(steam_app_id(), 1_085_660);
    assert_eq!(schema_version(), 1);
    assert_eq!(GAME_EXECUTABLE, "destiny2.exe");
    assert_eq!(MOD_RELATIVE_PATH, ["bin", "x64", "steam_api64.dll"]);
    assert_eq!(FRESH_INSTALL_BYTES, 118_111_600_640);
    assert_eq!(REPAIR_BYTES, 5_368_709_120);
    assert_eq!(UPDATE_BYTES, 268_435_456);
    assert_eq!(DEPOTS[0], (1_085_661, 7_180_122_903_232_116_872));
    assert_eq!(DEPOTS[1], (1_085_662, 2_210_332_166_360_342_287));
}

#[test]
fn default_preferences_are_empty() {
    let preferences = Preferences::default();
    assert_eq!(preferences.install_directory, "");
    assert_eq!(preferences.steam_username, "");
    assert_eq!(preferences.auth_method, AuthMethod::Qr);
    assert_eq!(AuthMethod::default(), AuthMethod::Qr);
}

#[test]
fn an_operation_ends_with_its_window() {
    assert!(cancels_active_operation(WindowEvent::CloseRequested));
    assert!(cancels_active_operation(WindowEvent::Destroyed));
    assert!(!cancels_active_operation(WindowEvent::Other));
}

#[test]
fn only_ascii_letters_match_in_either_case() {
    for one in 0_u8..128 {
        for other in 0_u8..128 {
            let mut installed = installed_snapshot(None);
            installed.installed_release = Some(char::from(one).to_string());
            let latest = latest_release(&char::from(other).to_string(), None);
            let both_letters = one.is_ascii_alphabetic() && other.is_ascii_alphabetic();
            let same = one == other || (both_letters && one % 32 == other % 32);
            assert_eq!(installed.update_available(&latest), !same);
        }
    }
}
