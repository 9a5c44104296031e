use renarrator::config::AppConfig;
use renarrator::storage::{
    config_dir, config_path, creation_warning, save_steps, settle_load, LoadOutcome, SaveStep,
    APP_DIR_NAME, CONFIG_FILE_NAME,
};
use renarrator::volume::Volume;
use std::collections::HashMap;
use std::path::{Path, MAIN_SEPARATOR_STR as SEP};

fn path(parts: &[&str]) -> String {
    parts.join(SEP)
}

#[test]
fn folder_is_in_the_application_data() {
    let appdata = path(&["users", "u", "roaming"]);
    let exe = path(&["programs", "renarrator.exe"]);
    let expected = path(&["users", "u", "roaming", "KeySoundTrigger"]);
    assert_eq!(config_dir(Some(&appdata), Some(&exe)), expected);
    assert_eq!(config_dir(Some(&appdata), None), expected);
    assert_eq!(
        config_path(Some(&appdata), None),
        path(&["users", "u", "roaming", "KeySoundTrigger", "config.json"])
    );
}

#[test]
fn folder_falls_back_to_the_executable_and_then_to_here() {
    let exe = path(&["programs", "renarrator.exe"]);
    assert_eq!(config_dir(None, Some(&exe)), path(&["programs", "KeySoundTrigger"]));
    assert_eq!(config_dir(None, None), APP_DIR_NAME);
    assert_eq!(config_path(None, None), path(&[APP_DIR_NAME, CONFIG_FILE_NAME]));
}

fn target() -> String {
    path(&["data", "KeySoundTrigger", "config.json"])
}

fn temporary() -> String {
    path(&["data", "KeySoundTrigger", "config.json.tmp"])
}

#[test]
fn saving_goes_by_way_of_a_temporary_file() {
    assert_eq!(
        save_steps(&target()),
        [
            SaveStep::CreateDir { path: path(&["data", "KeySoundTrigger"]) },
            SaveStep::WriteFile { path: temporary() },
            SaveStep::RenameFile { from: temporary(), to: target() },
        ]
    );
}

#[test]
fn temporary_file_is_never_the_file_itself() {
    for name in ["config.json", "config", "config.json.tmp", "a.tmp", ".json", "x.json/"] {
        let steps = save_steps(name);
        match &steps[steps.len() - 1] {
            SaveStep::RenameFile { from, to } => assert!(from != to, "{name}"),
            other => panic!("unexpected {other:?}"),
        }
    }
}

#[test]
fn path_without_a_parent_creates_no_folder() {
    assert!(Path::new("").parent().is_none());
    assert_eq!(save_steps("").len(), 2);
}

fn carry_out(files: &mut HashMap<String, String>, step: &SaveStep, contents: &str) {
    match step {
        SaveStep::CreateDir { .. } => {}
        SaveStep::WriteFile { path } => {
            files.insert(path.clone(), contents.to_string());
        }
        SaveStep::RenameFile { from, to } => {
            let moved = files.remove(from).unwrap();
            files.insert(to.clone(), moved);
        }
    }
}

#[test]
fn saved_contents_are_read_back() {
    for before in [None, Some("old")] {
        let mut files = HashMap::new();
        if let Some(old) = before {
            files.insert(target(), old.to_string());
        }
        for step in save_steps(&target()) {
            carry_out(&mut files, &step, "new");
        }
        assert_eq!(files.get(&target()).map(String::as_str), Some("new"));
        assert_eq!(files.len(), 1);
    }
}

#[test]
fn save_that_fails_keeps_the_old_file() {
    for before in [None, Some("old")] {
        let steps = save_steps(&target());
        for failing in 0..steps.len() {
            let mut files = HashMap::new();
            if let Some(old) = before {
                files.insert(target(), old.to_string());
            }
            for step in &steps[..failing] {
                carry_out(&mut files, step, "new");
            }
            assert_eq!(files.get(&target()).map(String::as_str), before);
        }
    }
}

#[test]
fn missing_file_is_created_with_the_default() {
    let startup = settle_load(LoadOutcome::Missing);
    assert_eq!(startup.config, AppConfig::default());
    assert!(startup.warnings.is_empty());
    assert!(startup.create_file);
    assert_eq!(
        creation_warning("диск полон"),
        "не удалось создать конфиг по умолчанию: диск полон"
    );
}

#[test]
fn damaged_file_is_left_alone() {
    let startup = settle_load(LoadOutcome::Damaged { reason: "EOF".into() });
    assert_eq!(startup.config, AppConfig::default());
    assert_eq!(
        startup.warnings,
        ["конфиг повреждён (EOF); используются настройки по умолчанию"]
    );
    assert!(!startup.create_file);
}

#[test]
fn loaded_file_is_used_whatever_the_check_says() {
    let mut config = AppConfig::default();
    config.master_volume = Volume { bits: 2.0f32.to_bits() };
    let startup = settle_load(LoadOutcome::Loaded {
        config: config.clone(),
        checked: Err("слишком громко".into()),
    });
    assert_eq!(startup.config, config);
    assert_eq!(startup.warnings, ["слишком громко"]);
    assert!(!startup.create_file);
    let startup = settle_load(LoadOutcome::Loaded {
        config,
        checked: Ok(vec!["a".into(), "b".into()]),
    });
    assert_eq!(startup.warnings, ["a", "b"]);
}
