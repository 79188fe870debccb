use std::collections::BTreeMap;
use std::path::{Path, PathBuf};

use sunrise_launcher::atomic_write::{write_atomic, AtomicWrite, WriteAction, WriteOutcome};
use sunrise_launcher::clock::Timestamp;
use sunrise_launcher::error::AppError;
use sunrise_launcher::models::{AuthMethod, InstallerState, Preferences};
use sunrise_launcher::paths::{game_path, mod_path, preferences_path, state_path};
use sunrise_launcher::storage::{
    app_cache_dir, app_data_dir, default_install_directory, is_existing_installation_directory,
    load_preferences, load_state, new_state, new_state_at, save_preferences, save_state,
    StoredFile,
};
use sunrise_launcher::text::decimal_text;

fn io_parts(error: AppError) -> (String, String) {
    match error {
        AppError::Io { context, reason } => (context, reason),
        _ => panic!("a file operation failed"),
    }
}

fn failure<T>(result: Result<T, AppError>) -> AppError {
    match result {
        Ok(_) => panic!("a failure was expected"),
        Err(error) => error,
    }
}

fn message_of(error: AppError) -> String {
    match error {
        AppError::Message(text) => text,
        _ => panic!("a message was expected"),
    }
}

#[test]
fn paths_lie_in_their_folders() {
    let root = Path::new("/games/d2");
    assert_eq!(game_path(root), PathBuf::from("/games/d2/destiny2.exe"));
    assert_eq!(
        state_path(root),
        PathBuf::from("/games/d2/.sunrise/install-state.json")
    );
    assert_eq!(
        mod_path(root),
        PathBuf::from("/games/d2/bin/x64/steam_api64.dll")
    );
    assert_eq!(
        preferences_path(Path::new("/data")),
        PathBuf::from("/data/preferences.json")
    );
}

#[test]
fn folders_of_the_system_are_passed_on_or_reported() {
    assert_eq!(
        app_data_dir(Ok(PathBuf::from("/data"))).unwrap(),
        PathBuf::from("/data")
    );
    assert_eq!(
        app_cache_dir(Ok(PathBuf::from("/cache"))).unwrap(),
        PathBuf::from("/cache")
    );
    assert_eq!(
        message_of(failure(app_data_dir(Err("unknown path".into())))),
        "The application data folder is unavailable: unknown path"
    );
    assert_eq!(
        message_of(failure(app_cache_dir(Err("unknown path".into())))),
        "The application cache folder is unavailable: unknown path"
    );
}

#[test]
fn the_launcher_installs_beside_itself_by_default() {
    assert_eq!(
        default_install_directory(Ok(PathBuf::from("/opt/l\u{e4}uncher/sunrise"))).unwrap(),
        "/opt/l\u{e4}uncher"
    );
    assert_eq!(
        message_of(failure(default_install_directory(Ok(PathBuf::from("/"))))),
        "The launcher executable has no parent folder."
    );
    assert_eq!(
        io_parts(failure(default_install_directory(Err("gone".into())))),
        (
            "Could not locate the launcher executable".to_owned(),
            "gone".to_owned()
        )
    );
}

#[test]
fn a_game_or_a_state_makes_an_installation() {
    assert!(is_existing_installation_directory(true, true));
    assert!(is_existing_installation_directory(true, false));
    assert!(is_existing_installation_directory(false, true));
    assert!(!is_existing_installation_directory(false, false));
}

#[test]
fn preferences_fall_back_to_the_default() {
    let absent = load_preferences(StoredFile::Absent).unwrap();
    assert_eq!(absent.install_directory, "");
    let malformed = load_preferences(StoredFile::Malformed("no JSON".into())).unwrap();
    assert_eq!(malformed.steam_username, "");
    assert_eq!(malformed.auth_method, AuthMethod::Qr);
    let parsed = load_preferences(StoredFile::Parsed(Preferences {
        install_directory: "/games/d2".into(),
        steam_username: "guardian".into(),
        auth_method: AuthMethod::TwoFactor,
    }))
    .unwrap();
    assert_eq!(parsed.install_directory, "/games/d2");
    assert_eq!(parsed.steam_username, "guardian");
    assert_eq!(parsed.auth_method, AuthMethod::TwoFactor);
    assert_eq!(
        io_parts(failure(load_preferences(StoredFile::Unreadable("locked".into())))),
        ("Could not read preferences".to_owned(), "locked".to_owned())
    );
}

#[test]
fn a_state_is_loaded_or_its_failure_reported() {
    assert!(load_state(StoredFile::Absent).unwrap().is_none());
    assert_eq!(
        io_parts(failure(load_state(StoredFile::Unreadable("locked".into())))),
        (
            "Could not read the installation state".to_owned(),
            "locked".to_owned()
        )
    );
    let malformed: StoredFile<InstallerState> = StoredFile::Malformed("no JSON".into());
    assert!(matches!(
        load_state(malformed),
        Err(AppError::Json { reason }) if reason == "no JSON"
    ));
}

#[test]
fn a_new_state_records_the_release_and_the_pinned_depots() {
    let moment = Timestamp {
        seconds: 1_787_745_600,
        nanoseconds: 7,
    };
    let state = new_state_at(
        "v1.2.3".into(),
        "steam_api64.dll".into(),
        Some("sha256:aabb".into()),
        "ccdd".into(),
        moment,
    );
    assert_eq!(state.schema_version, 1);
    assert_eq!(state.app_id, 1_085_660);
    assert_eq!(state.release_tag, "v1.2.3");
    assert_eq!(state.release_asset, "steam_api64.dll");
    assert_eq!(state.release_asset_digest.as_deref(), Some("sha256:aabb"));
    assert_eq!(state.installed_dll_sha256, "ccdd");
    assert_eq!(state.installed_at_utc, moment);
    assert_eq!(state.manifests.len(), 2);
    assert_eq!(
        state.manifests.get(&1_085_661),
        Some(&7_180_122_903_232_116_872)
    );
    assert_eq!(
        state.manifests.get(&1_085_662),
        Some(&2_210_332_166_360_342_287)
    );
}

#[test]
fn a_new_state_is_of_now() {
    let before = chrono::Utc::now().timestamp();
    let state = new_state("v1".into(), "a.dll".into(), None, "ccdd".into());
    let after = chrono::Utc::now().timestamp();
    assert!(before <= state.installed_at_utc.seconds);
    assert!(state.installed_at_utc.seconds <= after);
    assert!(state.installed_at_utc.nanoseconds < 1_000_000_000);
    assert_eq!(state.release_asset_digest, None);
}

fn begun(path: &str, contents: &[u8], process: u32) -> AtomicWrite {
    write_atomic(Path::new(path), contents.to_vec(), process).unwrap()
}

#[test]
fn a_file_is_replaced_by_way_of_a_temporary_one() {
    let mut write = begun("/data/preferences.json", b"new", 4021);
    match write.action() {
        WriteAction::CreateFolder(folder) => assert_eq!(folder, Path::new("/data")),
        _ => panic!("the folder comes first"),
    }
    write.advance(WriteOutcome::Done).unwrap();
    let temporary = Path::new("/data/.preferences.json-4021.tmp");
    match write.action() {
        WriteAction::WriteFile(file, contents) => {
            assert_eq!(file, temporary);
            assert_eq!(contents, b"new");
        }
        _ => panic!("the temporary file comes second"),
    }
    write.advance(WriteOutcome::Done).unwrap();
    let target = Path::new("/data/preferences.json");
    match write.action() {
        WriteAction::CheckFile(file) => assert_eq!(file, target),
        _ => panic!("the old file is looked for third"),
    }
    write.advance(WriteOutcome::Found).unwrap();
    match write.action() {
        WriteAction::RemoveFile(file) => assert_eq!(file, target),
        _ => panic!("the old file is removed fourth"),
    }
    write.advance(WriteOutcome::Done).unwrap();
    match write.action() {
        WriteAction::Rename(from, to) => {
            assert_eq!(from, temporary);
            assert_eq!(to, target);
        }
        _ => panic!("the new file takes its name last"),
    }
    write.advance(WriteOutcome::Done).unwrap();
    assert!(matches!(write.action(), WriteAction::Nothing));
    write.advance(WriteOutcome::Done).unwrap();
    assert!(matches!(write.action(), WriteAction::Nothing));
}

#[test]
fn a_file_that_is_not_there_is_not_removed() {
    for outcome in [WriteOutcome::Done, WriteOutcome::Failed("unknown".into())] {
        let mut write = begun("/data/preferences.json", b"new", 1);
        write.advance(WriteOutcome::Done).unwrap();
        write.advance(WriteOutcome::Done).unwrap();
        write.advance(outcome).unwrap();
        assert!(matches!(write.action(), WriteAction::Rename(_, _)));
    }
}

#[test]
fn each_failed_operation_is_reported_as_what_it_was() {
    let contexts = [
        (0, "Could not create a data folder"),
        (1, "Could not write local installer data"),
        (3, "Could not replace local installer data"),
        (4, "Could not finish writing local installer data"),
    ];
    for (done, context) in contexts {
        let mut write = begun("/data/preferences.json", b"new", 1);
        for _ in 0..done {
            write.advance(WriteOutcome::Found).unwrap();
        }
        let error = failure(write.advance(WriteOutcome::Failed("full".into())));
        assert_eq!(io_parts(error), (context.to_owned(), "full".to_owned()));
    }
}

#[test]
fn a_file_without_a_folder_is_refused() {
    assert_eq!(
        message_of(failure(write_atomic(Path::new("/"), Vec::new(), 1))),
        "The data file has no parent folder."
    );
}

#[test]
fn a_file_without_a_name_has_a_temporary_one_all_the_same() {
    let mut write = begun("/data/..", b"", 7);
    write.advance(WriteOutcome::Done).unwrap();
    match write.action() {
        WriteAction::WriteFile(file, _) => assert_eq!(file, Path::new("/data/.state-7.tmp")),
        _ => panic!("the temporary file comes second"),
    }
}

#[test]
fn preferences_and_states_are_saved_where_they_are_looked_for() {
    let mut write = save_preferences(Path::new("/data"), Ok(()), Ok(b"{}".to_vec()), 9).unwrap();
    write.advance(WriteOutcome::Done).unwrap();
    write.advance(WriteOutcome::Done).unwrap();
    match write.action() {
        WriteAction::CheckFile(file) => assert_eq!(file, preferences_path(Path::new("/data"))),
        _ => panic!("the old file is looked for third"),
    }
    let mut write = save_state(Path::new("/games/d2"), Ok(b"{}".to_vec()), 9).unwrap();
    match write.action() {
        WriteAction::CreateFolder(folder) => assert_eq!(folder, Path::new("/games/d2/.sunrise")),
        _ => panic!("the folder comes first"),
    }
    write.advance(WriteOutcome::Done).unwrap();
    write.advance(WriteOutcome::Done).unwrap();
    match write.action() {
        WriteAction::CheckFile(file) => assert_eq!(file, state_path(Path::new("/games/d2"))),
        _ => panic!("the old file is looked for third"),
    }
}

#[test]
fn failures_before_saving_are_reported() {
    let data = Path::new("/data");
    let error = failure(save_preferences(
        data,
        Err("no access".into()),
        Err("no JSON".into()),
        9,
    ));
    assert_eq!(
        io_parts(error),
        (
            "Could not create the application data folder".to_owned(),
            "no access".to_owned()
        )
    );
    let error = failure(save_preferences(data, Ok(()), Err("no JSON".into()), 9));
    assert!(matches!(error, AppError::Json { reason } if reason == "no JSON"));
    let error = failure(save_state(data, Err("no JSON".into()), 9));
    assert!(matches!(error, AppError::Json { reason } if reason == "no JSON"));
}

#[test]
fn numbers_are_written_in_decimal_notation() {
    assert_eq!(decimal_text(0), "0");
    assert_eq!(decimal_text(9), "9");
    assert_eq!(decimal_text(10), "10");
    assert_eq!(decimal_text(120_304), "120304");
    assert_eq!(decimal_text(u32::MAX), "4294967295");
}

/// Does the next operation of `write` on a disk in memory.
fn perform(write: &mut AtomicWrite, disk: &mut BTreeMap<PathBuf, Vec<u8>>) {
    let outcome = match write.action() {
        WriteAction::CreateFolder(_) | WriteAction::Nothing => WriteOutcome::Done,
        WriteAction::WriteFile(file, contents) => {
            disk.insert(file.to_path_buf(), contents.to_vec());
            WriteOutcome::Done
        }
        WriteAction::CheckFile(file) => {
            if disk.contains_key(file) {
                WriteOutcome::Found
            } else {
                WriteOutcome::Done
            }
        }
        WriteAction::RemoveFile(file) => {
            assert!(disk.remove(file).is_some());
            WriteOutcome::Done
        }
        WriteAction::Rename(from, to) => {
            let contents = disk.remove(from).unwrap();
            assert!(disk.insert(to.to_path_buf(), contents).is_none());
            WriteOutcome::Done
        }
    };
    write.advance(outcome).unwrap();
}

#[test]
fn a_finished_write_is_read_back() {
    let target = PathBuf::from("/data/preferences.json");
    let other = PathBuf::from("/data/other.json");
    for old in [None, Some(b"old".to_vec())] {
        let mut disk: BTreeMap<PathBuf, Vec<u8>> = BTreeMap::new();
        disk.insert(other.clone(), b"kept".to_vec());
        if let Some(old) = old.clone() {
            disk.insert(target.clone(), old);
        }
        let mut write = begun("/data/preferences.json", b"new", 12);
        for _ in 0..5 {
            perform(&mut write, &mut disk);
            let present = disk.get(&target);
            let whole = present == old.as_ref() || present == Some(&b"new".to_vec());
            let replaced = disk.values().any(|contents| contents == b"new");
            assert!(whole || (present.is_none() && replaced));
        }
        assert!(matches!(write.action(), WriteAction::Nothing));
        assert_eq!(disk.len(), 2);
        assert_eq!(disk.get(&target), Some(&b"new".to_vec()));
        assert_eq!(disk.get(&other), Some(&b"kept".to_vec()));
    }
}

#[test]
fn processes_use_different_temporary_files() {
    let mut names: Vec<PathBuf> = Vec::new();
    for process in [1, 2, 11, 12, 21] {
        let mut write = begun("/data/preferences.json", b"new", process);
        write.advance(WriteOutcome::Done).unwrap();
        match write.action() {
            WriteAction::WriteFile(file, _) => {
                assert_ne!(file, Path::new("/data/preferences.json"));
                assert!(!names.contains(&file.to_path_buf()));
                names.push(file.to_path_buf());
            }
            _ => panic!("the temporary file comes second"),
        }
    }
}

#[test]
fn a_temporary_file_is_never_the_file_that_it_replaces() {
    let names = [
        "preferences.json",
        ".tmp",
        "-7.tmp",
        "-7.tmp-7.tmp",
        ".-7.tmp",
        ".state-7.tmp",
        "a\\.a-7.tmp",
        "a\\b",
        "C:name.tmp",
        "l\u{e4}uncher.tmp",
        "..",
        "folder/",
    ];
    for folder in ["", "/", "/data/", "data/", "//server/share/", "./", "../"] {
        for name in names {
            let path = PathBuf::from(format!("{folder}{name}"));
            let mut write = match write_atomic(&path, Vec::new(), 7) {
                Ok(write) => write,
                Err(_) => panic!("the file has a folder"),
            };
            write.advance(WriteOutcome::Done).unwrap();
            match write.action() {
                WriteAction::WriteFile(file, _) => assert_ne!(file, path.as_path()),
                _ => panic!("the temporary file comes second"),
            }
        }
    }
}
