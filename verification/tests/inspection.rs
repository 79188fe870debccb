use std::path::Path;

use sunrise_launcher::clock::Timestamp;
use sunrise_launcher::error::AppError;
use sunrise_launcher::inspection::{inspect_installation, Finding, Inspection, InspectionAction};
use sunrise_launcher::models::{InstallationSnapshot, InstallerState, ReleaseInfo};
use sunrise_launcher::storage::new_state_at;

const MOMENT: Timestamp = Timestamp {
    seconds: 1_787_745_600,
    nanoseconds: 5,
};

fn state(hash: &str) -> InstallerState {
    new_state_at(
        "v1.2.3".into(),
        "steam_api64.dll".into(),
        Some("sha256:aabb".into()),
        hash.into(),
        MOMENT,
    )
}

fn finished(inspection: Inspection) -> Result<InstallationSnapshot, AppError> {
    match inspection {
        Inspection::Finished { outcome } => outcome,
        _ => panic!("the inspection is not over"),
    }
}

fn with_state(hash: &str) -> Inspection {
    inspect_installation("/games/d2")
        .advance(Finding::File(true))
        .advance(Finding::State(Ok(Some(state(hash)))))
}

#[test]
fn an_empty_path_is_not_inspected() {
    for path in ["", "   ", "\t\n", "\u{2003}"] {
        let inspection = inspect_installation(path);
        assert!(matches!(inspection.action(), InspectionAction::Nothing));
        let snapshot = finished(inspection).unwrap();
        assert_eq!(snapshot.status, "notInstalled");
        assert_eq!(
            snapshot.message,
            "Choose an installation folder to get started."
        );
        assert!(!snapshot.game_found);
    }
}

#[test]
fn an_inspection_looks_where_the_files_belong() {
    let root = Path::new("/games/d2");
    let inspection = inspect_installation("  /games/d2\n");
    match inspection.action() {
        InspectionAction::CheckFile(path) => assert_eq!(path, root.join("destiny2.exe")),
        _ => panic!("the game comes first"),
    }
    let inspection = inspection.advance(Finding::File(true));
    match inspection.action() {
        InspectionAction::LoadState(path) => {
            assert_eq!(path, root.join(".sunrise").join("install-state.json"))
        }
        _ => panic!("the state comes second"),
    }
    let inspection = inspection.advance(Finding::State(Ok(Some(state("ccdd")))));
    let dll = root.join("bin").join("x64").join("steam_api64.dll");
    match inspection.action() {
        InspectionAction::CheckFile(path) => assert_eq!(path, dll),
        _ => panic!("the DLL comes third"),
    }
    let inspection = inspection.advance(Finding::File(true));
    match inspection.action() {
        InspectionAction::HashFile(path) => assert_eq!(path, dll),
        _ => panic!("the digest comes last"),
    }
}

#[test]
fn a_folder_without_a_state_is_not_managed() {
    let found = inspect_installation("/games/d2")
        .advance(Finding::File(true))
        .advance(Finding::State(Ok(None)));
    let found = finished(found).unwrap();
    assert_eq!(found.status, "unmanaged");
    assert_eq!(
        found.message,
        "Destiny 2 was found, but this launcher has not installed Sunrise here."
    );
    assert!(found.game_found);
    assert_eq!(found.installed_release, None);

    let empty = inspect_installation("/games/d2")
        .advance(Finding::File(false))
        .advance(Finding::State(Ok(None)));
    let empty = finished(empty).unwrap();
    assert_eq!(empty.status, "notInstalled");
    assert_eq!(
        empty.message,
        "No managed Sunrise installation was found in this folder."
    );
    assert!(!empty.game_found);
    assert!(!empty.local_file_changed);
}

#[test]
fn a_lost_dll_needs_repair() {
    let snapshot = finished(with_state("ccdd").advance(Finding::File(false))).unwrap();
    assert_eq!(snapshot.status, "needsRepair");
    assert_eq!(snapshot.message, "The Sunrise DLL is missing. Run Repair.");
    assert!(snapshot.local_file_changed);
    assert_eq!(snapshot.installed_release.as_deref(), Some("v1.2.3"));
    assert_eq!(
        snapshot.installed_release_digest.as_deref(),
        Some("sha256:aabb")
    );
    assert_eq!(snapshot.installed_at, Some(MOMENT));
}

#[test]
fn an_unchanged_dll_is_installed_and_needs_no_update() {
    let inspection = with_state("CCDD")
        .advance(Finding::File(true))
        .advance(Finding::Hash(Ok("ccdd".into())));
    let snapshot = finished(inspection).unwrap();
    assert_eq!(snapshot.status, "installed");
    assert_eq!(snapshot.message, "Sunrise is installed and ready.");
    assert!(snapshot.game_found);
    assert!(!snapshot.local_file_changed);
    assert_eq!(snapshot.installed_release.as_deref(), Some("v1.2.3"));
    assert_eq!(snapshot.installed_at, Some(MOMENT));
    assert!(!snapshot.update_available(&ReleaseInfo {
        tag: "v1.2.3".into(),
        asset_name: "steam_api64.dll".into(),
        download_url: "https://example.invalid/steam_api64.dll".into(),
        size: 1,
        digest: Some("sha256:aabb".into()),
    }));
}

#[test]
fn a_changed_dll_is_noticed() {
    let inspection = with_state("ccdd")
        .advance(Finding::File(true))
        .advance(Finding::Hash(Ok("ccde".into())));
    let snapshot = finished(inspection).unwrap();
    assert_eq!(snapshot.status, "modified");
    assert_eq!(
        snapshot.message,
        "The installed DLL differs from the recorded release. Run Repair or Update."
    );
    assert!(snapshot.local_file_changed);
}

#[test]
fn failures_end_an_inspection() {
    let inspection = inspect_installation("/games/d2")
        .advance(Finding::File(true))
        .advance(Finding::State(Err(AppError::json("no JSON".into()))));
    assert!(matches!(finished(inspection), Err(AppError::Json { reason }) if reason == "no JSON"));

    let inspection = with_state("ccdd")
        .advance(Finding::File(true))
        .advance(Finding::Hash(Err(AppError::message("broken off"))));
    assert!(matches!(finished(inspection), Err(AppError::Message(text)) if text == "broken off"));
}

#[test]
fn what_was_not_asked_for_changes_nothing() {
    let inspection = inspect_installation("/games/d2").advance(Finding::Hash(Ok("ccdd".into())));
    match inspection.action() {
        InspectionAction::CheckFile(path) => {
            assert_eq!(path, Path::new("/games/d2").join("destiny2.exe"))
        }
        _ => panic!("the game still comes first"),
    }
    let over = inspect_installation(" ").advance(Finding::File(true));
    assert_eq!(finished(over).unwrap().status, "notInstalled");
}

#[test]
fn white_space_is_what_unicode_says_it_is() {
    let white = [
        '\u{9}', '\u{a}', '\u{b}', '\u{c}', '\u{d}', '\u{20}', '\u{85}', '\u{a0}', '\u{1680}',
        '\u{2000}', '\u{2001}', '\u{2002}', '\u{2003}', '\u{2004}', '\u{2005}', '\u{2006}',
        '\u{2007}', '\u{2008}', '\u{2009}', '\u{200a}', '\u{2028}', '\u{2029}', '\u{202f}',
        '\u{205f}', '\u{3000}',
    ];
    for c in '\u{0}'..=char::MAX {
        let inspection = inspect_installation(&c.to_string());
        let skipped = matches!(inspection, Inspection::Finished { .. });
        assert_eq!(skipped, white.contains(&c));
    }
}

#[test]
fn the_recorded_release_is_never_an_update() {
    let release = ReleaseInfo {
        tag: "v1.2.3".into(),
        asset_name: "steam_api64.dll".into(),
        download_url: "https://example.invalid/steam_api64.dll".into(),
        size: 1,
        digest: Some("sha256:aabb".into()),
    };
    let lost = finished(with_state("ccdd").advance(Finding::File(false))).unwrap();
    assert!(!lost.update_available(&release));
    for hash in ["ccdd", "CCDD", "0000", ""] {
        let inspection = with_state("ccdd")
            .advance(Finding::File(true))
            .advance(Finding::Hash(Ok(hash.into())));
        let snapshot = finished(inspection).unwrap();
        assert_eq!(snapshot.installed_release.as_deref(), Some("v1.2.3"));
        assert!(!snapshot.update_available(&release));
    }
}
